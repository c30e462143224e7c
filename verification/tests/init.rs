use forge::commands::init::{
    choose_server_name, index_file, plan_init, project_dir, summary_lines, web_root_owner_command,
    InitStep,
};
use forge::error::ForgeError;
use forge::nginx::config::validate_project_root;
use forge::template::{builtin_template, render_index, TemplateKind};

#[test]
fn domain_is_used_only_with_a_project() {
    let c = choose_server_name(&Some("shop".to_string()), "shop.example.com");
    assert_eq!(c.server_name, "shop.example.com");
    assert!(!c.domain_ignored);
    let c = choose_server_name(&None, "shop.example.com");
    assert_eq!(c.server_name, "localhost");
    assert!(c.domain_ignored);
    let c = choose_server_name(&None, "localhost");
    assert_eq!(c.server_name, "localhost");
    assert!(!c.domain_ignored);
}

#[test]
fn full_plan_order() {
    let steps = plan_init(&Some("deploy".to_string()), &Some("shop".to_string()), true).unwrap();
    assert_eq!(
        steps,
        vec![
            InitStep::InstallNginx,
            InitStep::CreateUser,
            InitStep::SetupSsh,
            InitStep::ConfigureWebRoot,
            InitStep::CreateProject { owned_by_user: true },
            InitStep::RemoveDefaultSite,
            InitStep::InstallMainConfig,
            InitStep::InstallAppConfig,
            InitStep::EnableAndStart,
        ]
    );
}

#[test]
fn minimal_plan_and_ignored_key() {
    let steps = plan_init(&None, &None, false).unwrap();
    assert_eq!(
        steps,
        vec![
            InitStep::InstallNginx,
            InitStep::RemoveDefaultSite,
            InitStep::InstallMainConfig,
            InitStep::EnableAndStart,
        ]
    );
    let steps = plan_init(&None, &Some("p".to_string()), true).unwrap();
    assert_eq!(
        steps,
        vec![
            InitStep::InstallNginx,
            InitStep::WarnSshKeyIgnored,
            InitStep::CreateProject { owned_by_user: false },
            InitStep::RemoveDefaultSite,
            InitStep::InstallMainConfig,
            InitStep::InstallAppConfig,
            InitStep::EnableAndStart,
        ]
    );
    let steps = plan_init(&Some("u".to_string()), &None, false).unwrap();
    assert_eq!(
        steps,
        vec![
            InitStep::AskSshKey,
            InitStep::InstallNginx,
            InitStep::CreateUser,
            InitStep::SetupSsh,
            InitStep::ConfigureWebRoot,
            InitStep::RemoveDefaultSite,
            InitStep::InstallMainConfig,
            InitStep::EnableAndStart,
        ]
    );
}

#[test]
fn plan_rejects_bad_username() {
    let e = plan_init(&Some("Bad".to_string()), &None, false).unwrap_err();
    assert_eq!(e, ForgeError::InvalidUsername { name: "Bad".to_string() });
}

#[test]
fn project_directory_of_a_valid_name_is_a_valid_root() {
    let dir = project_dir("my-app_1");
    assert_eq!(dir, "/var/www/my-app_1");
    assert_eq!(validate_project_root(&dir), Ok(()));
    assert_eq!(index_file(&dir), "/var/www/my-app_1/index.html");
}

#[test]
fn summary_lists_what_was_set_up() {
    let lines = summary_lines(&Some("deploy".to_string()), &Some("shop".to_string()), "example.com");
    assert_eq!(
        lines,
        vec![
            "Deploy user: deploy",
            "Web root: /var/www",
            "Project directory: /var/www/shop",
            "Server name: example.com"
        ]
    );
    assert_eq!(summary_lines(&None, &None, "localhost"), vec!["Web root: /var/www"]);
}

#[test]
fn builtin_templates_by_name() {
    assert_eq!(builtin_template("nginx.conf"), Ok(TemplateKind::NginxConf));
    assert_eq!(builtin_template("app.conf.template"), Ok(TemplateKind::AppConf));
    assert_eq!(builtin_template("index.html.template"), Ok(TemplateKind::IndexHtml));
    let e = builtin_template("other").unwrap_err();
    assert_eq!(e.message(), "Unknown template: other");
}

#[test]
fn index_page_names_the_project() {
    let page = render_index("<h1>{{PROJECT_NAME}}</h1><p>{{PROJECT_NAME}}</p>", "shop");
    assert_eq!(page, "<h1>shop</h1><p>shop</p>");
    assert_eq!(render_index("{{PROJECT_NAME", "shop"), "{{PROJECT_NAME");
    assert_eq!(render_index("", "shop"), "");
}

#[test]
fn web_root_is_handed_to_the_deploy_user() {
    let c = web_root_owner_command("deploy");
    assert_eq!(c.program, "chown");
    assert_eq!(c.args, vec!["deploy:deploy", "/var/www"]);
    assert_eq!(c.stdin, None);
}
