use cgeos2::operations::{
    validate_operation, follow, start_plan, status_plan, CommandError, Field, FieldValue, Follow,
    Operation, RequestPlan,
};

fn keys(plan: &RequestPlan) -> Vec<&str> {
    plan.fields.iter().map(|f: &Field| f.key.as_str()).collect()
}

fn site_creation(
    site_type: &str,
    template_id: Option<&str>,
    template_version: Option<&str>,
    preset_id: Option<&str>,
) -> Operation {
    Operation::CreateSite {
        enterprise: 2,
        operation: 7,
        name: "Official".to_owned(),
        site_type: site_type.to_owned(),
        domain: None,
        template_id: template_id.map(str::to_owned),
        template_version: template_version.map(str::to_owned),
        preset_id: preset_id.map(str::to_owned),
    }
}

#[test]
fn template_selection_with_id_version_and_preset_is_planned() {
    let op = site_creation("site", Some("fleks-site"), Some("0.1.0"), Some("cubegarden-official"));
    let plan = start_plan(&op).unwrap();
    assert_eq!(plan.action, "Client.Tenant.Sites.Create");
    assert_eq!(plan.enterprise, Some(2));
    assert_eq!(
        keys(&plan),
        vec![
            "operation_id",
            "name",
            "site_type",
            "primary_domain",
            "template_id",
            "template_version",
            "preset_id"
        ]
    );
    assert!(matches!(plan.fields[0].value, FieldValue::Id(7)));
    assert!(matches!(&plan.fields[3].value, FieldValue::MaybeText(None)));
    assert!(matches!(&plan.fields[6].value, FieldValue::Text(t) if t == "cubegarden-official"));
    assert_eq!(follow(&op), Follow::TaskState);
    let status = status_plan(&op).unwrap();
    assert_eq!(status.action, "Client.Tenant.Sites.CreateStatus");
    assert_eq!(status.enterprise, Some(2));
    assert_eq!(keys(&status), vec!["operation_id"]);
    assert!(matches!(status.fields[0].value, FieldValue::Id(7)));
}

#[test]
fn incomplete_template_selection_is_refused() {
    let partial = site_creation("site", Some("fleks-site"), None, None);
    assert_eq!(validate_operation(&partial), Err(CommandError::IncompleteTemplate));
    let version_only = site_creation("site", None, Some("0.1.0"), None);
    assert_eq!(validate_operation(&version_only), Err(CommandError::IncompleteTemplate));
    let preset_only = site_creation("site", None, None, Some("cubegarden-official"));
    assert_eq!(validate_operation(&preset_only), Err(CommandError::PresetWithoutTemplate));
    let catalog = site_creation("e-catalog", None, None, None);
    assert_eq!(keys(&start_plan(&catalog).unwrap()).len(), 4);
    let other = site_creation("shop", None, None, None);
    assert!(matches!(start_plan(&other), Err(CommandError::UnsupportedSiteType)));
    assert_eq!(
        CommandError::IncompleteTemplate.message(),
        "template-id and template-version must be given together"
    );
    assert_eq!(CommandError::PresetWithoutTemplate.message(), "preset-id requires template-id");
    assert_eq!(
        CommandError::UnsupportedSiteType.message(),
        "site-type must be site or e-catalog"
    );
}

#[test]
fn enterprise_provisioning_is_started_and_polled_under_one_id() {
    let op = Operation::ProvisionEnterprise {
        operation: 5,
        name: "TEST".to_owned(),
        owner: 6,
        license_template: 8,
        expires_at_seconds: 2082758400,
    };
    let plan = start_plan(&op).unwrap();
    assert_eq!(plan.action, "Platform.Enterprise.Provision.Start");
    assert_eq!(plan.enterprise, None);
    assert_eq!(
        keys(&plan),
        vec![
            "operation_id",
            "display_name",
            "owner_account_id",
            "license_template_id",
            "license_expires_at_seconds"
        ]
    );
    assert!(matches!(plan.fields[4].value, FieldValue::Integer(2082758400)));
    let status = status_plan(&op).unwrap();
    assert_eq!(status.action, "Platform.Enterprise.Provision.Get");
    assert_eq!(status.enterprise, None);
    assert!(matches!(status.fields[0].value, FieldValue::Id(5)));
}

#[test]
fn publication_needs_a_positive_revision() {
    let publish = |expected_revision: i64| Operation::PublishPage {
        enterprise: 2,
        site: 3,
        page: "index".to_owned(),
        expected_revision,
        operation: 4,
    };
    assert!(matches!(start_plan(&publish(0)), Err(CommandError::NonPositiveRevision)));
    assert!(matches!(start_plan(&publish(-5)), Err(CommandError::NonPositiveRevision)));
    assert_eq!(
        CommandError::NonPositiveRevision.message(),
        "expected-revision must be positive"
    );
    let op = publish(1);
    let plan = start_plan(&op).unwrap();
    assert_eq!(plan.action, "Client.NeoCMS.Page.Publish");
    assert_eq!(
        keys(&plan),
        vec!["operation_id", "site_id", "page_key", "expected_revision"]
    );
    assert_eq!(follow(&op), Follow::PublicationStatus);
    let status = status_plan(&op).unwrap();
    assert_eq!(status.action, "Client.NeoCMS.Page.PublishStatus");
    assert_eq!(keys(&status), vec!["task_id", "site_id", "page_key"]);
    assert!(matches!(status.fields[0].value, FieldValue::Id(4)));
}

#[test]
fn outpost_requests_are_platform_wide() {
    let list = Operation::ListOutposts { enterprise: None, site: Some(3) };
    let plan = start_plan(&list).unwrap();
    assert_eq!(plan.action, "Platform.Outpost.Site.List");
    assert_eq!(plan.enterprise, None);
    assert!(matches!(plan.fields[0].value, FieldValue::MaybeId(None)));
    assert!(matches!(plan.fields[1].value, FieldValue::MaybeId(Some(3))));
    assert_eq!(follow(&list), Follow::Reply);
    assert!(status_plan(&list).is_none());
    let assign = Operation::AssignOutpost { enterprise: 1, site: 2, node: 3, operation: 4 };
    let plan = start_plan(&assign).unwrap();
    assert_eq!(plan.action, "Platform.Outpost.Site.Assign");
    assert_eq!(keys(&plan), vec!["operation_id", "enterprise_id", "site_id", "node_id"]);
    let unassign = Operation::UnassignOutpost { enterprise: 1, site: 2, node: 3, operation: 4 };
    assert_eq!(start_plan(&unassign).unwrap().action, "Platform.Outpost.Site.Unassign");
}

#[test]
fn agent_requests_are_scoped_to_the_enterprise() {
    let run = Operation::RunAgent { enterprise: 9, site: 3, message: "hi".to_owned() };
    let plan = start_plan(&run).unwrap();
    assert_eq!(plan.action, "Client.Platform.Agent.Run");
    assert_eq!(plan.enterprise, Some(9));
    assert_eq!(keys(&plan), vec!["site_id", "message"]);
    for (op, action) in [
        (Operation::AgentSession { enterprise: 9, site: 3 }, "Client.Platform.Agent.Session"),
        (Operation::CancelAgent { enterprise: 9, site: 3 }, "Client.Platform.Agent.Cancel"),
        (Operation::AgentAudit { enterprise: 9, site: 3 }, "Client.Platform.Agent.Audit"),
    ] {
        let plan = start_plan(&op).unwrap();
        assert_eq!(plan.action, action);
        assert_eq!(keys(&plan), vec!["site_id"]);
    }
}

#[test]
fn agent_confirmation_needs_exactly_one_choice() {
    let confirm = |approve: bool, reject: bool| Operation::ConfirmAgent {
        enterprise: 9,
        site: 3,
        approval: 4,
        approve,
        reject,
    };
    assert_eq!(validate_operation(&confirm(true, true)), Err(CommandError::ApprovalChoiceRequired));
    assert_eq!(validate_operation(&confirm(false, false)), Err(CommandError::ApprovalChoiceRequired));
    assert_eq!(
        CommandError::ApprovalChoiceRequired.message(),
        "exactly one of --approve or --reject is required"
    );
    let plan = start_plan(&confirm(false, true)).unwrap();
    assert_eq!(plan.action, "Client.Platform.Agent.Confirm");
    assert_eq!(keys(&plan), vec!["site_id", "approval_id", "approved"]);
    assert!(matches!(plan.fields[2].value, FieldValue::Flag(false)));
}
