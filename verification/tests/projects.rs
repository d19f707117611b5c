use quickstack::access::AuthUser;
use quickstack::error::AppError;
use quickstack::projects::{
    admin_create_row, check_project_access, check_project_deletable, like_pattern, member_target, role_level,
    slug_valid, validate_new_project, validate_project_update, validate_role, AddMemberRequest,
    AdminCreateProjectRequest, CreateProjectRequest, MemberRow, MemberTarget, ProjectMembers, UpdateProjectRequest,
};

fn user(id: &str, admin: bool) -> AuthUser {
    AuthUser { user_id: id.to_string(), username: id.to_string(), is_global_admin: admin }
}

fn project(owner: &str, members: &[(&str, &str)]) -> ProjectMembers {
    ProjectMembers {
        project_id: "p1".to_string(),
        owner_id: owner.to_string(),
        members: members
            .iter()
            .map(|(u, r)| MemberRow { user_id: u.to_string(), role: r.to_string() })
            .collect(),
    }
}

fn rows(p: &ProjectMembers) -> Vec<(String, String)> {
    p.members.iter().map(|m| (m.user_id.clone(), m.role.clone())).collect()
}

fn bad(r: Result<(), AppError>) -> String {
    match r {
        Err(AppError::BadRequest(m)) => m,
        _ => panic!("expected 400"),
    }
}

#[test]
fn project_names_are_dns_labels() {
    assert!(slug_valid("web-1"));
    assert!(!slug_valid("1web"));
    assert!(!slug_valid("Web"));
    assert!(!slug_valid(""));
    assert!(slug_valid(&"a".repeat(63)));
    assert!(!slug_valid(&"a".repeat(64)));
}

#[test]
fn roles_and_levels() {
    assert!(validate_role("OPERATOR").is_ok());
    assert_eq!(bad(validate_role("OWNER")), "invalid role 'OWNER'; valid: ADMIN OPERATOR OBSERVER");
    assert_eq!(role_level("OBSERVER"), 1);
    assert_eq!(role_level("OPERATOR"), 2);
    assert_eq!(role_level("ADMIN"), 3);
    assert_eq!(role_level("VIEWER"), 0);
}

#[test]
fn project_access_rules() {
    assert!(check_project_access(&user("x", true), false, None, "ADMIN").is_ok());
    assert!(check_project_access(&user("x", false), true, None, "ADMIN").is_ok());
    assert!(check_project_access(&user("x", false), false, Some("ADMIN".to_string()), "OPERATOR").is_ok());
    match check_project_access(&user("x", false), false, Some("OBSERVER".to_string()), "OPERATOR") {
        Err(AppError::Forbidden(m)) => assert_eq!(m, "OPERATOR role required"),
        _ => panic!(),
    }
    match check_project_access(&user("x", false), false, None, "OBSERVER") {
        Err(AppError::Forbidden(m)) => assert_eq!(m, "not a member of this project"),
        _ => panic!(),
    }
}

#[test]
fn access_is_monotone_on_concrete_roles() {
    // an OPERATOR passes OPERATOR and every weaker requirement
    for min in ["OPERATOR", "OBSERVER"] {
        assert!(check_project_access(&user("x", false), false, Some("OPERATOR".to_string()), min).is_ok());
    }
    assert!(check_project_access(&user("x", false), false, Some("OPERATOR".to_string()), "ADMIN").is_err());
}

#[test]
fn leaving_a_project() {
    let mut p = project("o", &[("o", "ADMIN"), ("a", "ADMIN"), ("b", "OPERATOR")]);
    assert!(p.leave_project("b").is_ok());
    assert_eq!(rows(&p), vec![("o".to_string(), "ADMIN".to_string()), ("a".to_string(), "ADMIN".to_string())]);
    assert_eq!(bad(p.leave_project("o")), "project owner cannot leave \u{2014} transfer ownership first");
    assert_eq!(bad(p.leave_project("zz")), "you are not a member of this project");
    let mut solo = project("o", &[("o", "ADMIN"), ("b", "OBSERVER")]);
    assert_eq!(
        bad(solo.leave_project("o")),
        "cannot leave: you are the last ADMIN \u{2014} transfer ownership or delete the project first"
    );
    assert_eq!(solo.admin_count(), 1);
}

#[test]
fn leaving_keeps_an_admin_on_concrete_values() {
    let mut p = project("o", &[("o", "ADMIN"), ("a", "ADMIN")]);
    assert!(p.leave_project("a").is_ok());
    assert_eq!(p.admin_count(), 1);
    assert!(p.leave_project("o").is_err());
    assert_eq!(p.admin_count(), 1);
}

#[test]
fn transferring_ownership() {
    let mut p = project("o", &[("o", "ADMIN"), ("b", "OBSERVER")]);
    match p.transfer_owner(&user("b", false), "b") {
        Err(AppError::Forbidden(m)) => assert_eq!(m, "only the project owner can transfer ownership"),
        _ => panic!(),
    }
    assert_eq!(bad(p.transfer_owner(&user("o", false), "zz")), "new owner must already be a project member");
    assert!(p.transfer_owner(&user("o", false), "b").is_ok());
    assert_eq!(p.owner_id, "b");
    assert_eq!(p.role_of("b"), Some("ADMIN".to_string()));
    assert_eq!(p.role_of("o"), Some("ADMIN".to_string()));
}

#[test]
fn adding_and_updating_members() {
    let mut p = project("o", &[("o", "ADMIN")]);
    assert!(p.add_member("c", "OPERATOR").is_ok());
    assert_eq!(p.role_of("c"), Some("OPERATOR".to_string()));
    assert!(p.add_member("c", "OBSERVER").is_ok());
    assert_eq!(p.members.len(), 2);
    assert_eq!(p.role_of("c"), Some("OBSERVER".to_string()));
    assert_eq!(bad(p.add_member("d", "BOSS")), "invalid role 'BOSS'; valid: ADMIN OPERATOR OBSERVER");
    assert_eq!(bad(p.update_member("o", "OPERATOR")), "cannot demote: this user is the last ADMIN of the project");
    assert!(p.update_member("c", "ADMIN").is_ok());
    assert_eq!(
        bad(p.update_member("o", "OPERATOR")),
        "project owner must retain ADMIN role \u{2014} transfer ownership first"
    );
    match p.update_member("zz", "ADMIN") {
        Err(AppError::NotFound(m)) => assert_eq!(m, "member zz in project p1"),
        _ => panic!(),
    }
}

#[test]
fn removing_members() {
    let mut p = project("o", &[("o", "ADMIN"), ("a", "ADMIN"), ("b", "OBSERVER")]);
    assert_eq!(bad(p.remove_member("o")), "cannot remove the project owner \u{2014} transfer ownership first");
    assert!(p.remove_member("b").is_ok());
    assert!(p.remove_member("a").is_ok());
    let mut q = project("o", &[("a", "ADMIN")]);
    assert_eq!(bad(q.remove_member("a")), "cannot remove: this user is the last ADMIN of the project");
    assert!(q.admin_remove_member("a").is_ok());
    assert!(q.members.is_empty());
    match q.admin_remove_member("a") {
        Err(AppError::NotFound(m)) => assert_eq!(m, "member a in project p1"),
        _ => panic!(),
    }
    let mut r = project("o", &[("o", "ADMIN")]);
    assert!(r.admin_update_member("o", "OBSERVER").is_ok());
    assert_eq!(r.role_of("o"), Some("OBSERVER".to_string()));
}

#[test]
fn creating_projects() {
    let body = CreateProjectRequest { name: "shop".to_string(), display_name: "  My Shop ".to_string() };
    assert_eq!(validate_new_project(&user("u", false), None, &body).unwrap(), "My Shop");
    match validate_new_project(&user("u", false), Some("0".to_string()), &body) {
        Err(AppError::Forbidden(m)) => assert_eq!(m, "project creation is restricted to administrators"),
        _ => panic!(),
    }
    assert!(validate_new_project(&user("u", true), Some("0".to_string()), &body).is_ok());
    let bad_name = CreateProjectRequest { name: "Shop".to_string(), display_name: "x".to_string() };
    match validate_new_project(&user("u", true), None, &bad_name) {
        Err(AppError::BadRequest(m)) => assert_eq!(
            m,
            "project name must be lowercase letters/digits/hyphens, start with a letter, max 63 chars"
        ),
        _ => panic!(),
    }
    let blank = CreateProjectRequest { name: "shop".to_string(), display_name: "   ".to_string() };
    match validate_new_project(&user("u", true), None, &blank) {
        Err(AppError::BadRequest(m)) => assert_eq!(m, "display_name is required"),
        _ => panic!(),
    }
}

#[test]
fn updating_and_deleting_projects() {
    assert_eq!(validate_project_update(&UpdateProjectRequest { display_name: None }).unwrap(), None);
    assert_eq!(
        validate_project_update(&UpdateProjectRequest { display_name: Some(" New ".to_string()) }).unwrap(),
        Some("New".to_string())
    );
    match validate_project_update(&UpdateProjectRequest { display_name: Some(" ".to_string()) }) {
        Err(AppError::BadRequest(m)) => assert_eq!(m, "display_name cannot be empty"),
        _ => panic!(),
    }
    assert!(check_project_deletable(0).is_ok());
    assert_eq!(
        bad(check_project_deletable(2)),
        "cannot delete project with 2 running app(s) \u{2014} stop them first"
    );
}

#[test]
fn member_lookup_and_admin_rows() {
    let by_id = AddMemberRequest { user_id: Some("u9".to_string()), username: Some("bob".to_string()), role: "ADMIN".to_string() };
    assert!(matches!(member_target(&by_id), Ok(MemberTarget::ById(x)) if x == "u9"));
    let by_name = AddMemberRequest { user_id: None, username: Some("bob".to_string()), role: "ADMIN".to_string() };
    assert!(matches!(member_target(&by_name), Ok(MemberTarget::ByUsername(x)) if x == "bob"));
    let neither = AddMemberRequest { user_id: None, username: None, role: "ADMIN".to_string() };
    assert!(matches!(member_target(&neither), Err(AppError::BadRequest(m)) if m == "provide either user_id or username"));
    let body = AdminCreateProjectRequest {
        name: "data".to_string(),
        display_name: " Data ".to_string(),
        owner_id: None,
        quota_cpu_mcores: Some(2000),
        quota_mem_mb: None,
        quota_storage_gb: Some(10),
        quota_apps: None,
        quota_db_instances: None,
        quota_bandwidth_gb: None,
        quota_domain_count: Some(3),
        quota_request_million: None,
    };
    let row = admin_create_row(&user("admin1", true), &body).unwrap();
    assert_eq!(row.name, "data");
    assert_eq!(row.display_name, "Data");
    assert_eq!(row.owner_id, "admin1");
    assert_eq!(row.quotas, [2000, 0, 10, 0, 0, 0, 3, 0]);
    assert_eq!(like_pattern("ab"), "%ab%");
}
