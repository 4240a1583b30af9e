use nym_updater::lines::{join_lines, split_lines};
use nym_updater::text::{contains_sub, find_sub, replace_first, str_eq};
use nym_updater::tokens::{extract_field, nth_token, tokens, trim};
use nym_updater::version_info::marker_line_token;
use nym_updater::{NymSystemDProperty, NymSystemdFileUtil, NymReleaseAssets, UpdateErrorKind};

#[test]
fn str_eq_distinguishes() {
    assert!(str_eq("active", "active"));
    assert!(!str_eq("active", "inactive"));
    assert!(!str_eq("active", "activ"));
    assert!(str_eq("", ""));
}

#[test]
fn find_sub_first_occurrence() {
    assert_eq!(find_sub("abcabc", "bc"), Some(1));
    assert_eq!(find_sub("abcabc", "zz"), None);
    assert_eq!(find_sub("abcabc", ""), Some(0));
    assert!(contains_sub("nym-binaries-v1.1.0", "nym-binaries"));
    assert!(!contains_sub("other-release", "nym-binaries"));
}

#[test]
fn replace_first_preserves_tail() {
    let r = replace_first(
        "ExecStart=/opt/old/bin --id n1 --host 1.2.3.4",
        "/opt/old/bin",
        "/opt/new/bin",
    );
    assert_eq!(r, "ExecStart=/opt/new/bin --id n1 --host 1.2.3.4");
    let unchanged = replace_first("nothing here", "/opt/old/bin", "/opt/new/bin");
    assert_eq!(unchanged, "nothing here");
}

#[test]
fn split_and_join_lines_round_trip() {
    let text = "[Unit]\nDescription=x\n\n[Service]\nExecStart=/b";
    let lines = split_lines(text);
    assert_eq!(lines, vec!["[Unit]", "Description=x", "", "[Service]", "ExecStart=/b"]);
    assert_eq!(join_lines(&lines), text);
    assert_eq!(split_lines(""), vec![""]);
    assert_eq!(split_lines("a\n"), vec!["a", ""]);
}

#[test]
fn tokens_split_on_blanks() {
    assert_eq!(tokens("  Build   Version:\t1.1.0 "), vec!["Build", "Version:", "1.1.0"]);
    assert_eq!(tokens(""), Vec::<String>::new());
    assert_eq!(nth_token("Build Version: 1.1.0", 2), Some("1.1.0".to_string()));
    assert_eq!(nth_token("Build Version: 1.1.0", 3), None);
}

#[test]
fn trim_strips_blanks() {
    assert_eq!(trim("  /opt/old/bin \t"), "/opt/old/bin");
    assert_eq!(trim(""), "");
    assert_eq!(trim("x"), "x");
    assert_eq!(trim("a b"), "a b");
}

#[test]
fn extract_field_stops_at_delimiters() {
    let show = "{ path=/opt/old/bin ; argv[]=/opt/old/bin --id n1 ; ignore_errors=no }";
    assert_eq!(extract_field(show, "path="), Some("/opt/old/bin ".to_string()));
    assert_eq!(extract_field(show, "argv[]="), Some("/opt/old/bin --id n1 ".to_string()));
    assert_eq!(extract_field("no marker here", "path="), None);
    // the value also ends at a further `=`
    assert_eq!(extract_field("path=a=b;rest", "path="), Some("a".to_string()));
}

#[test]
fn marker_line_token_picks_first_marker_line() {
    let out = "nym-mixnode\nBuild Timestamp: x\nBuild Version:  1.1.4\nCommit SHA: y";
    assert_eq!(marker_line_token(out, "Build Version", 2), Some("1.1.4".to_string()));
    assert_eq!(marker_line_token("no such line", "Build Version", 2), None);
    let unit = "[Service]\nExecStart=/usr/local/bin/nym-mixnode run --id n1\n";
    assert_eq!(marker_line_token(unit, "id", 3), Some("n1".to_string()));
}

#[test]
fn descriptor_exec_start_mutation_preserves_arguments() {
    let util = NymSystemdFileUtil::new(NymReleaseAssets::MixNode);
    let show = "{ path=/opt/old/bin ; argv[]=/opt/old/bin --id n1 --host 1.2.3.4 ; flags= }";
    let descriptor = "[Unit]\nDescription=Nym nym-mixnode 1.0.0\n\n[Service]\nExecStart=/opt/old/bin --id n1 --host 1.2.3.4\nRestart=always";
    let mutated = util
        .update_exec_start_prop(descriptor, show, "/opt/new/bin")
        .unwrap();
    assert_eq!(
        mutated,
        "[Unit]\nDescription=Nym nym-mixnode 1.0.0\n\n[Service]\nExecStart=/opt/new/bin --id n1 --host 1.2.3.4\nRestart=always"
    );
}

#[test]
fn descriptor_description_mutation() {
    let util = NymSystemdFileUtil::new(NymReleaseAssets::MixNode);
    let descriptor = "[Unit]\nDescription=old text\n[Service]\nExecStart=/b";
    let mutated = util.update_description_prop(descriptor, "1.1.4");
    assert_eq!(
        mutated,
        "[Unit]\nDescription=Nym nym-mixnode 1.1.4\n[Service]\nExecStart=/b"
    );
}

#[test]
fn descriptor_mutation_without_tokens_fails() {
    let util = NymSystemdFileUtil::new(NymReleaseAssets::MixNode);
    let e = util
        .update_exec_start_prop("ExecStart=/b", "no tokens here", "/opt/new/bin")
        .unwrap_err();
    assert_eq!(e.kind(), UpdateErrorKind::Parse);
}

#[test]
fn set_service_property_rewrites_matching_lines_only() {
    let util = NymSystemdFileUtil::new(NymReleaseAssets::MixNode);
    let text = "Description=a\nNotDescription=b\nDescription=c";
    let out = util.set_service_property(text, &NymSystemDProperty::Description, "new");
    assert_eq!(out, "Description=new\nNotDescription=b\nDescription=new");
}

#[test]
fn updated_exec_start_line_exact() {
    let r = NymSystemdFileUtil::updated_exec_start_line(
        "/opt/old/bin --id n1 --host 1.2.3.4",
        "/opt/old/bin",
        "/opt/new/bin",
    );
    assert_eq!(r, "/opt/new/bin --id n1 --host 1.2.3.4");
}

#[test]
fn service_path_and_property_names() {
    let util = NymSystemdFileUtil::new(NymReleaseAssets::MixNode);
    assert_eq!(util.get_service_path(), "/etc/systemd/system/nym-mixnode.service");
    assert_eq!(NymSystemDProperty::Description.as_str(), "Description");
    assert_eq!(NymSystemDProperty::ExecStart.as_str(), "ExecStart");
    assert_eq!(util.description_value("1.2.3"), "Nym nym-mixnode 1.2.3");
}
