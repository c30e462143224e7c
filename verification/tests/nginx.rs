use forge::error::ForgeError;
use forge::nginx::config::{
    app_config_path, render_app_config, validate_project_name, validate_project_root,
    validate_server_name,
};
use forge::nginx::install;

#[test]
fn project_name_rules_in_order() {
    assert_eq!(validate_project_name("myapp"), Ok(()));
    assert_eq!(validate_project_name("My-App_2"), Ok(()));
    assert_eq!(validate_project_name(""), Err(ForgeError::EmptyProjectName));
    assert_eq!(validate_project_name(&"a".repeat(64)), Ok(()));
    assert_eq!(validate_project_name(&"a".repeat(65)), Err(ForgeError::ProjectNameTooLong));
    assert_eq!(validate_project_name("my.app"), Err(ForgeError::ProjectNameCharset));
    assert_eq!(validate_project_name("my app"), Err(ForgeError::ProjectNameCharset));
    assert_eq!(validate_project_name("../etc"), Err(ForgeError::ProjectNameCharset));
}

#[test]
fn project_name_length_counts_bytes() {
    // 22 three-byte characters: 66 bytes, so the length rule fires first.
    assert_eq!(validate_project_name(&"项".repeat(22)), Err(ForgeError::ProjectNameTooLong));
    // 21 of them: 63 bytes, refused for its characters.
    assert_eq!(validate_project_name(&"项".repeat(21)), Err(ForgeError::ProjectNameCharset));
}

#[test]
fn server_name_rules() {
    assert_eq!(validate_server_name("example.com"), Ok(()));
    assert_eq!(validate_server_name("*.example.com"), Ok(()));
    assert_eq!(validate_server_name("[::1]"), Err(ForgeError::ServerNameCharset));
    assert_eq!(validate_server_name("::1"), Ok(()));
    assert_eq!(validate_server_name("10.0.0.1"), Ok(()));
    assert_eq!(validate_server_name(""), Err(ForgeError::EmptyServerName));
    assert_eq!(validate_server_name(&"a".repeat(253)), Ok(()));
    assert_eq!(validate_server_name(&"a".repeat(254)), Err(ForgeError::ServerNameTooLong));
    assert_eq!(validate_server_name("a b"), Err(ForgeError::ServerNameCharset));
}

#[test]
fn project_root_rules() {
    assert_eq!(validate_project_root("/var/www/myapp"), Ok(()));
    assert_eq!(validate_project_root(""), Err(ForgeError::EmptyProjectRoot));
    assert_eq!(validate_project_root(&format!("/{}", "a".repeat(511))), Ok(()));
    assert_eq!(validate_project_root(&format!("/{}", "a".repeat(512))), Err(ForgeError::ProjectRootTooLong));
    assert_eq!(validate_project_root("/var/www/my app"), Err(ForgeError::ProjectRootCharset));
    assert_eq!(validate_project_root("var/www"), Err(ForgeError::ProjectRootNotAbsolute));
    assert_eq!(validate_project_root("./www"), Err(ForgeError::ProjectRootNotAbsolute));
    assert_eq!(validate_project_root("/var/../etc"), Err(ForgeError::ProjectRootDotSegment));
    assert_eq!(validate_project_root("/var/www/.."), Err(ForgeError::ProjectRootDotSegment));
    assert_eq!(validate_project_root("/.."), Err(ForgeError::ProjectRootDotSegment));
}

#[test]
fn project_root_single_dots_are_normalised_away() {
    // `Path::components` drops `.` in absolute paths, and `...` is a normal name.
    assert_eq!(validate_project_root("/var/./www"), Ok(()));
    assert_eq!(validate_project_root("/var/www/."), Ok(()));
    assert_eq!(validate_project_root("/var/.../www"), Ok(()));
    assert_eq!(validate_project_root("/var/..x/www"), Ok(()));
    assert_eq!(validate_project_root("//var//www//"), Ok(()));
}

const TEMPLATE: &str = "server {\n    listen 80;\n    server_name {{SERVER_NAME}};\n    root {{PROJECT_ROOT}};\n    # {{PROJECT_NAME}} {{PROJECT_NAME}}\n}\n";

#[test]
fn app_config_is_rendered() {
    let out = render_app_config(TEMPLATE, "shop", "shop.example.com", "/var/www/shop").unwrap();
    assert_eq!(
        out,
        "server {\n    listen 80;\n    server_name shop.example.com;\n    root /var/www/shop;\n    # shop shop\n}\n"
    );
}

#[test]
fn app_config_validates_in_order() {
    assert_eq!(render_app_config(TEMPLATE, "", "", ""), Err(ForgeError::EmptyProjectName));
    assert_eq!(render_app_config(TEMPLATE, "a", "", ""), Err(ForgeError::EmptyServerName));
    assert_eq!(render_app_config(TEMPLATE, "a", "b", "rel"), Err(ForgeError::ProjectRootNotAbsolute));
    assert_eq!(
        render_app_config(TEMPLATE, "a", "bad name", "/x"),
        Err(ForgeError::ServerNameCharset)
    );
}

#[test]
fn app_config_replaces_in_order_and_left_to_right() {
    // The project name goes in first, so a placeholder spelled out by the
    // name is replaced by the later passes.
    let out = render_app_config("{{PROJECT_NAME}}", "a", "s", "/r").unwrap();
    assert_eq!(out, "a");
    let out = render_app_config("{{{PROJECT_NAME}}}", "a", "s", "/r").unwrap();
    assert_eq!(out, "{a}");
    let out = render_app_config("no placeholders", "a", "s", "/r").unwrap();
    assert_eq!(out, "no placeholders");
}

#[test]
fn app_config_path_is_under_conf_d() {
    assert_eq!(app_config_path("shop"), "/etc/nginx/conf.d/shop.conf");
}

#[test]
fn nginx_commands() {
    let cmds = install::install();
    assert_eq!(cmds[0].program, "apt");
    assert_eq!(cmds[0].args, vec!["update", "-qq"]);
    assert_eq!(cmds[1].args, vec!["install", "-y", "-qq", "nginx"]);
    let cmds = install::enable_and_start();
    assert_eq!(cmds[0].args, vec!["enable", "nginx"]);
    assert_eq!(cmds[1].args, vec!["start", "nginx"]);
    let rm = install::remove_default_site();
    assert_eq!(rm.program, "rm");
    assert_eq!(rm.args, vec!["-f", "/etc/nginx/sites-enabled/default"]);
    let t = install::test_config();
    assert_eq!(t.program, "nginx");
    assert_eq!(t.args, vec!["-t"]);
}

#[test]
fn config_error_messages() {
    assert_eq!(ForgeError::EmptyProjectName.message(), "项目名称不能为空");
    assert_eq!(ForgeError::ProjectRootDotSegment.message(), "项目根目录不允许包含 . 或 ..");
    assert_eq!(ForgeError::ServerNameTooLong.message(), "站点域名或 IP 过长");
}
