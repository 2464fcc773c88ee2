use ceres::scaffold::{guest_transform_config, host_transform_config};
use ceres::transform::{transform_lines, InsertRule, TransformConfig};

fn lines(v: &[&str]) -> Vec<String> {
    v.iter().map(|s| s.to_string()).collect()
}

fn simple_config() -> TransformConfig {
    TransformConfig {
        trigger: "fn main()".to_string(),
        replacement: lines(&["    injected();"]),
        inserts: Vec::new(),
        drops: Vec::new(),
    }
}

#[test]
fn empty_body_and_closing_brace_are_replaced() {
    let input = lines(&["fn main() {", "}"]);
    let output = transform_lines(&input, &simple_config());
    assert_eq!(output, lines(&["fn main() {", "    injected();"]));
}

#[test]
fn single_statement_body_is_replaced() {
    let input = lines(&["before", "fn main() {", "    old();", "}", "after"]);
    let output = transform_lines(&input, &simple_config());
    assert_eq!(
        output,
        lines(&["before", "fn main() {", "    injected();", "after"])
    );
}

#[test]
fn nested_braces_do_not_end_the_skip_early() {
    let input = lines(&[
        "fn main() {",
        "    if flag { inner(); }",
        "    old();",
        "}",
        "tail",
    ]);
    let output = transform_lines(&input, &simple_config());
    assert_eq!(output, lines(&["fn main() {", "    injected();", "tail"]));
}

#[test]
fn string_brace_does_not_end_the_skip() {
    let input = lines(&[
        "fn main() {",
        "    let s = \"}\";",
        "    if flag { inner(); }",
        "    old();",
        "}",
        "tail",
    ]);
    let output = transform_lines(&input, &simple_config());
    assert_eq!(output, lines(&["fn main() {", "    injected();", "tail"]));
}

#[test]
fn string_open_brace_does_not_inflate_the_depth() {
    let input = lines(&["fn main() {", "    let s = \"{\";", "}", "tail"]);
    let output = transform_lines(&input, &simple_config());
    assert_eq!(output, lines(&["fn main() {", "    injected();", "tail"]));
}

#[test]
fn comment_braces_do_not_count() {
    let input = lines(&[
        "fn main() {",
        "    // unmatched }",
        "    /* also } here */",
        "    old();",
        "}",
        "tail",
    ]);
    let output = transform_lines(&input, &simple_config());
    assert_eq!(output, lines(&["fn main() {", "    injected();", "tail"]));
}

#[test]
fn escaped_quote_keeps_the_string_open() {
    let input = lines(&["fn main() {", "    let s = \"\\\"}\";", "}"]);
    let output = transform_lines(&input, &simple_config());
    assert_eq!(output, lines(&["fn main() {", "    injected();"]));
}

#[test]
fn string_state_carries_across_lines() {
    let input = lines(&[
        "fn main() {",
        "    let s = \"start",
        "} still in the string\";",
        "    old();",
        "}",
        "end",
    ]);
    let output = transform_lines(&input, &simple_config());
    assert_eq!(output, lines(&["fn main() {", "    injected();", "end"]));
}

#[test]
fn insertion_fires_only_when_every_marker_matches() {
    let config = TransformConfig {
        trigger: "fn main()".to_string(),
        replacement: Vec::new(),
        inserts: vec![InsertRule {
            markers: lines(&["ELF", "ID"]),
            lines: lines(&["use std::env;", "mod hostlib;"]),
        }],
        drops: Vec::new(),
    };
    let input = lines(&["use demo_methods::{DEMO_ELF, DEMO_ID};", "only ELF here"]);
    let output = transform_lines(&input, &config);
    assert_eq!(
        output,
        lines(&[
            "use demo_methods::{DEMO_ELF, DEMO_ID};",
            "use std::env;",
            "mod hostlib;",
            "only ELF here",
        ])
    );
}

#[test]
fn host_entry_point_is_rewired() {
    let config = host_transform_config("widget");
    let input = lines(&[
        "use widget_methods::{WIDGET_ELF, WIDGET_ID};",
        "",
        "fn main() {",
        "    println!(\"hello\");",
        "}",
    ]);
    let output = transform_lines(&input, &config);
    assert_eq!(
        output,
        lines(&[
            "use widget_methods::{WIDGET_ELF, WIDGET_ID};",
            "use std::env;",
            "mod hostlib;",
            "",
            "fn main() {",
            "    let args: Vec<String> = env::args().collect();",
            "    let data: Vec<u8> = hostlib::prepare(args);",
            "",
            "    let env = ExecutorEnv::builder().add_input(&to_vec(&data.as_slice()).unwrap()).build();",
            "",
            "    let mut exec = Executor::from_elf(env, WIDGET_ELF).unwrap();",
            "",
            "    let session = exec.run().unwrap();",
            "    let receipt = session.prove().unwrap();",
            "    let cid: String = from_slice(&receipt.journal).unwrap();",
            "    println!(\"Verified data with CID: {}\", cid);",
        ])
    );
}

#[test]
fn guest_entry_point_is_rewired_and_no_std_dropped() {
    let config = guest_transform_config();
    let input = lines(&[
        "#![no_std]",
        "use risc0_zkvm::guest::env;",
        "",
        "risc0_zkvm::guest::entry!(main);",
        "",
        "fn main() {",
        "}",
    ]);
    let output = transform_lines(&input, &config);
    assert_eq!(
        output,
        lines(&[
            "use risc0_zkvm::guest::env;",
            "use cid::multihash::{Code, MultihashDigest};",
            "use cid::Cid;",
            "",
            "risc0_zkvm::guest::entry!(main);",
            "mod guestlib;",
            "",
            "fn main() {",
            "    let data: Vec<u8> = env::read();",
            "    guestlib::verify(&data);",
            "",
            "    const RAW: u64 = 0x55;",
            "    let h = Code::Sha2_256.digest(&data);",
            "    let cid = Cid::new_v1(RAW, h);",
            "    env::commit(&cid.to_string());",
            "    return ();",
        ])
    );
}
