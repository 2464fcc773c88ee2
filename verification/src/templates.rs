//! The starter files a new project is initialized with: the verifier
//! manifest carrying the two section markers, and the user-facing library
//! and driver stubs.

use vstd::prelude::*;
use vstd::string::*;

verus! {

/// The dependency manifest a fresh verifier directory starts with,
/// carrying the host and guest section markers that the partitioner later
/// scans for.
pub fn verifier_manifest_template(name: &str) -> (r: String)
    ensures
        r@ == "[package]\nname = \""@ + name@
            + "\"\nversion = \"0.1.0\"\n edition = \"2021\"\n\n[dependencies]\n# Host - install host dependencies here, don't delete this line\n\n# Guest - install guest dependencies here, don't delete this line"@,
{
    let mut r = String::from_str("[package]\nname = \"");
    r.append(name);
    r.append(
        "\"\nversion = \"0.1.0\"\n edition = \"2021\"\n\n[dependencies]\n# Host - install host dependencies here, don't delete this line\n\n# Guest - install guest dependencies here, don't delete this line",
    );
    r
}

/// The stub the user fills with host-side preparation code.
pub fn hostlib_template() -> (r: String)
    ensures
        r@ == "pub fn prepare(args: Vec<String>) -> Vec<u8> { \n //write your host code here \n }"@,
{
    String::from_str(
        "pub fn prepare(args: Vec<String>) -> Vec<u8> { \n //write your host code here \n }",
    )
}

/// The stub the user fills with guest-side verification code.
pub fn guestlib_template() -> (r: String)
    ensures
        r@ == "pub fn verify(data: &Vec<u8>) -> bool { \n //write your code here \n }"@,
{
    String::from_str("pub fn verify(data: &Vec<u8>) -> bool { \n //write your code here \n }")
}

/// The driver that lets the user run both stubs outside the proving
/// environment.
pub fn verifier_main_template() -> (r: String)
    ensures
        r@ == "mod guestlib;\nmod hostlib;\n\nuse std::env;\n\nfn main() {\n    let args: Vec<String> = env::args().collect();\n\n    //testing the host code\n    let file_bytes: Vec<u8> = hostlib::prepare(args);\n\n    //testing the guest code\n    let guest_verification_result: bool = guestlib::verify(&file_bytes);\n    println!(\"Guest verification result: {:?}\", guest_verification_result);\n}"@,
{
    String::from_str(
        "mod guestlib;\nmod hostlib;\n\nuse std::env;\n\nfn main() {\n    let args: Vec<String> = env::args().collect();\n\n    //testing the host code\n    let file_bytes: Vec<u8> = hostlib::prepare(args);\n\n    //testing the guest code\n    let guest_verification_result: bool = guestlib::verify(&file_bytes);\n    println!(\"Guest verification result: {:?}\", guest_verification_result);\n}",
    )
}

} // verus!
