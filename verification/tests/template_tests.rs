use ceres::scaffold::{guest_package_name_line, methods_package_name_line};
use ceres::templates::{
    guestlib_template, hostlib_template, verifier_main_template, verifier_manifest_template,
};

#[test]
fn verifier_manifest_carries_both_markers_and_the_name() {
    let manifest = verifier_manifest_template("widget");
    assert_eq!(
        manifest,
        "[package]\nname = \"widget\"\nversion = \"0.1.0\"\n edition = \"2021\"\n\n[dependencies]\n# Host - install host dependencies here, don't delete this line\n\n# Guest - install guest dependencies here, don't delete this line"
    );
}

#[test]
fn hostlib_stub_text() {
    assert_eq!(
        hostlib_template(),
        "pub fn prepare(args: Vec<String>) -> Vec<u8> { \n //write your host code here \n }"
    );
}

#[test]
fn guestlib_stub_text() {
    assert_eq!(
        guestlib_template(),
        "pub fn verify(data: &Vec<u8>) -> bool { \n //write your code here \n }"
    );
}

#[test]
fn verifier_main_drives_both_stubs() {
    let main = verifier_main_template();
    assert!(main.starts_with("mod guestlib;\nmod hostlib;\n\nuse std::env;\n\nfn main() {\n"));
    assert!(main.contains("hostlib::prepare(args)"));
    assert!(main.contains("guestlib::verify(&file_bytes)"));
    assert!(main.ends_with("println!(\"Guest verification result: {:?}\", guest_verification_result);\n}"));
}

#[test]
fn package_name_lines() {
    assert_eq!(methods_package_name_line("widget"), "name = \"widget-methods\"");
    assert_eq!(guest_package_name_line("widget"), "name = \"widget\"");
}
