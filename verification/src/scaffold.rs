//! The concrete patch plan for a freshly generated host/guest project
//! pair: the entry-point replacement blocks, the insertion rules for the
//! supplementary declarations they depend on, and the renamed manifest
//! lines.  The exact line indices are bound to the external generator's
//! fixed output layout.

use vstd::prelude::*;
use vstd::string::*;
use crate::text::{contains_seq, contains_substring, line_views, upper_of, to_upper};
use crate::transform::{InsertRule, TransformConfig};

verus! {

/// The zero-based line of the methods manifest that holds the package name.
pub const METHODS_MANIFEST_NAME_INDEX: usize = 1;

/// The zero-based line of the guest manifest that holds the package name.
pub const GUEST_MANIFEST_NAME_INDEX: usize = 2;

/// The zero-based line of the host entry-point file that imports the
/// generated methods.
pub const HOST_MAIN_IMPORT_INDEX: usize = 3;

/// Whether the external toolchain's listing shows the required generator.
pub fn toolchain_listed(listing: &str) -> (r: bool)
    ensures
        r == contains_seq(listing@, "cargo-risczero"@),
{
    contains_substring(listing, "cargo-risczero")
}

/// The statement sequence injected into the host entry point, with the
/// uppercased project name spliced into the program-image reference.
pub open spec fn host_replacement_views(upper: Seq<char>) -> Seq<Seq<char>> {
    seq![
        "    let args: Vec<String> = env::args().collect();"@,
        "    let data: Vec<u8> = hostlib::prepare(args);"@,
        ""@,
        "    let env = ExecutorEnv::builder().add_input(&to_vec(&data.as_slice()).unwrap()).build();"@,
        ""@,
        "    let mut exec = Executor::from_elf(env, "@ + upper + "_ELF).unwrap();"@,
        ""@,
        "    let session = exec.run().unwrap();"@,
        "    let receipt = session.prove().unwrap();"@,
        "    let cid: String = from_slice(&receipt.journal).unwrap();"@,
        "    println!(\"Verified data with CID: {}\", cid);"@,
    ]
}

/// The statement sequence injected into the guest entry point.
pub open spec fn guest_replacement_views() -> Seq<Seq<char>> {
    seq![
        "    let data: Vec<u8> = env::read();"@,
        "    guestlib::verify(&data);"@,
        ""@,
        "    const RAW: u64 = 0x55;"@,
        "    let h = Code::Sha2_256.digest(&data);"@,
        "    let cid = Cid::new_v1(RAW, h);"@,
        "    env::commit(&cid.to_string());"@,
        "    return ();"@,
    ]
}

/// The transformer configuration for the host entry-point file: replace
/// the body of the entry point and declare the environment import and the
/// host library module after the generated methods import.
pub fn host_transform_config(project_name: &str) -> (cfg: TransformConfig)
    ensures
        cfg.trigger@ == "fn main()"@,
        line_views(cfg.replacement@) =~= host_replacement_views(upper_of(project_name@)),
        cfg.inserts@.len() == 1,
        cfg.inserts@[0].markers@.len() == 2,
        cfg.inserts@[0].markers@[0]@ == "ELF"@,
        cfg.inserts@[0].markers@[1]@ == "ID"@,
        line_views(cfg.inserts@[0].lines@) =~= seq!["use std::env;"@, "mod hostlib;"@],
        cfg.drops@.len() == 0,
{
    let upper = to_upper(project_name);
    let mut image_line = String::from_str("    let mut exec = Executor::from_elf(env, ");
    image_line.append(upper.as_str());
    image_line.append("_ELF).unwrap();");
    let mut replacement: Vec<String> = Vec::new();
    replacement.push(String::from_str("    let args: Vec<String> = env::args().collect();"));
    replacement.push(String::from_str("    let data: Vec<u8> = hostlib::prepare(args);"));
    replacement.push(String::from_str(""));
    replacement.push(
        String::from_str(
            "    let env = ExecutorEnv::builder().add_input(&to_vec(&data.as_slice()).unwrap()).build();",
        ),
    );
    replacement.push(String::from_str(""));
    replacement.push(image_line);
    replacement.push(String::from_str(""));
    replacement.push(String::from_str("    let session = exec.run().unwrap();"));
    replacement.push(String::from_str("    let receipt = session.prove().unwrap();"));
    replacement.push(String::from_str("    let cid: String = from_slice(&receipt.journal).unwrap();"));
    replacement.push(String::from_str("    println!(\"Verified data with CID: {}\", cid);"));
    let mut markers: Vec<String> = Vec::new();
    markers.push(String::from_str("ELF"));
    markers.push(String::from_str("ID"));
    let mut insert_lines: Vec<String> = Vec::new();
    insert_lines.push(String::from_str("use std::env;"));
    insert_lines.push(String::from_str("mod hostlib;"));
    let mut inserts: Vec<InsertRule> = Vec::new();
    inserts.push(InsertRule { markers, lines: insert_lines });
    TransformConfig {
        trigger: String::from_str("fn main()"),
        replacement,
        inserts,
        drops: Vec::new(),
    }
}

/// The transformer configuration for the guest entry-point file: replace
/// the body of the entry point, drop the no-std attribute line, and
/// declare the content-identifier imports and the guest library module
/// after the lines they belong to.
pub fn guest_transform_config() -> (cfg: TransformConfig)
    ensures
        cfg.trigger@ == "fn main()"@,
        line_views(cfg.replacement@) =~= guest_replacement_views(),
        cfg.inserts@.len() == 2,
        cfg.inserts@[0].markers@.len() == 1,
        cfg.inserts@[0].markers@[0]@ == "use risc0_zkvm::guest::env;"@,
        line_views(cfg.inserts@[0].lines@) =~= seq![
            "use cid::multihash::{Code, MultihashDigest};"@,
            "use cid::Cid;"@,
        ],
        cfg.inserts@[1].markers@.len() == 1,
        cfg.inserts@[1].markers@[0]@ == "risc0_zkvm::guest::entry!(main);"@,
        line_views(cfg.inserts@[1].lines@) =~= seq!["mod guestlib;"@],
        cfg.drops@.len() == 1,
        cfg.drops@[0]@ == "no_std"@,
{
    let mut replacement: Vec<String> = Vec::new();
    replacement.push(String::from_str("    let data: Vec<u8> = env::read();"));
    replacement.push(String::from_str("    guestlib::verify(&data);"));
    replacement.push(String::from_str(""));
    replacement.push(String::from_str("    const RAW: u64 = 0x55;"));
    replacement.push(String::from_str("    let h = Code::Sha2_256.digest(&data);"));
    replacement.push(String::from_str("    let cid = Cid::new_v1(RAW, h);"));
    replacement.push(String::from_str("    env::commit(&cid.to_string());"));
    replacement.push(String::from_str("    return ();"));
    let mut env_markers: Vec<String> = Vec::new();
    env_markers.push(String::from_str("use risc0_zkvm::guest::env;"));
    let mut env_lines: Vec<String> = Vec::new();
    env_lines.push(String::from_str("use cid::multihash::{Code, MultihashDigest};"));
    env_lines.push(String::from_str("use cid::Cid;"));
    let mut entry_markers: Vec<String> = Vec::new();
    entry_markers.push(String::from_str("risc0_zkvm::guest::entry!(main);"));
    let mut entry_lines: Vec<String> = Vec::new();
    entry_lines.push(String::from_str("mod guestlib;"));
    let mut inserts: Vec<InsertRule> = Vec::new();
    inserts.push(InsertRule { markers: env_markers, lines: env_lines });
    inserts.push(InsertRule { markers: entry_markers, lines: entry_lines });
    let mut drops: Vec<String> = Vec::new();
    drops.push(String::from_str("no_std"));
    TransformConfig {
        trigger: String::from_str("fn main()"),
        replacement,
        inserts,
        drops,
    }
}

/// The package-name line the methods manifest is patched to.
pub fn methods_package_name_line(project_name: &str) -> (r: String)
    ensures
        r@ == "name = \""@ + project_name@ + "-methods\""@,
{
    let mut r = String::from_str("name = \"");
    r.append(project_name);
    r.append("-methods\"");
    r
}

/// The package-name line the guest manifest is patched to.
pub fn guest_package_name_line(project_name: &str) -> (r: String)
    ensures
        r@ == "name = \""@ + project_name@ + "\""@,
{
    let mut r = String::from_str("name = \"");
    r.append(project_name);
    r.append("\"");
    r
}

/// The import line the host entry point is patched to: the generated
/// methods crate re-exports the program image and its identifier under
/// uppercased names.
pub fn host_methods_import_line(project_name: &str) -> (r: String)
    ensures
        r@ == "use "@ + project_name@ + "_methods::{"@ + upper_of(project_name@) + "_ELF, "@
            + upper_of(project_name@) + "_ID};"@,
{
    let upper = to_upper(project_name);
    let mut r = String::from_str("use ");
    r.append(project_name);
    r.append("_methods::{");
    r.append(upper.as_str());
    r.append("_ELF, ");
    r.append(upper.as_str());
    r.append("_ID};");
    r
}

} // verus!
