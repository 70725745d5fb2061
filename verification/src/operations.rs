//! The Terminal requests behind the client's operations: which action each
//! sends, in which enterprise scope, with which payload fields, how its
//! outcome is polled, and which inputs are refused before anything is sent.

use vstd::prelude::*;

verus! {

/// A payload field's value, as the library holds it. Ids are UUIDs, sent in
/// their text form; an absent optional value is sent as JSON `null`.
#[derive(Debug)]
pub enum FieldValue {
    Id(u128),
    MaybeId(Option<u128>),
    Text(String),
    MaybeText(Option<String>),
    Integer(i64),
    Flag(bool),
}

/// The mathematical content of a payload field's value.
pub enum FieldContent {
    Id(u128),
    MaybeId(Option<u128>),
    Text(Seq<char>),
    MaybeText(Option<Seq<char>>),
    Integer(i64),
    Flag(bool),
}

/// The characters of an optional owned text.
pub open spec fn optional_string(t: Option<String>) -> Option<Seq<char>> {
    match t {
        Some(s) => Some(s@),
        None => None,
    }
}

impl View for FieldValue {
    type V = FieldContent;

    open spec fn view(&self) -> FieldContent {
        match self {
            FieldValue::Id(id) => FieldContent::Id(*id),
            FieldValue::MaybeId(id) => FieldContent::MaybeId(*id),
            FieldValue::Text(t) => FieldContent::Text(t@),
            FieldValue::MaybeText(t) => FieldContent::MaybeText(optional_string(*t)),
            FieldValue::Integer(n) => FieldContent::Integer(*n),
            FieldValue::Flag(b) => FieldContent::Flag(*b),
        }
    }
}

/// One key of a request payload, with its value.
#[derive(Debug)]
pub struct Field {
    pub key: String,
    pub value: FieldValue,
}

impl View for Field {
    type V = (Seq<char>, FieldContent);

    open spec fn view(&self) -> (Seq<char>, FieldContent) {
        (self.key@, self.value@)
    }
}

/// The keys and values of a list of fields.
pub open spec fn fields_view(fields: Seq<Field>) -> Seq<(Seq<char>, FieldContent)> {
    fields.map_values(|f: Field| f@)
}

/// A Terminal request to send: its action, its enterprise scope (`None` for
/// a platform-wide request) and its payload fields, in order.
#[derive(Debug)]
pub struct RequestPlan {
    pub action: String,
    pub enterprise: Option<u128>,
    pub fields: Vec<Field>,
}

/// The mathematical content of a request plan.
pub struct PlanContent {
    pub action: Seq<char>,
    pub enterprise: Option<u128>,
    pub fields: Seq<(Seq<char>, FieldContent)>,
}

impl View for RequestPlan {
    type V = PlanContent;

    open spec fn view(&self) -> PlanContent {
        PlanContent {
            action: self.action@,
            enterprise: self.enterprise,
            fields: fields_view(self.fields@),
        }
    }
}

#[allow(inconsistent_fields)]
/// An operation that the client performs through one Terminal request,
/// possibly followed by status polling. Ids are UUID values; the operation
/// ids of provisioning and site creation are already resolved.
#[derive(Debug)]
pub enum Operation {
    ProvisionEnterprise {
        operation: u128,
        name: String,
        owner: u128,
        license_template: u128,
        expires_at_seconds: i64,
    },
    CreateSite {
        enterprise: u128,
        operation: u128,
        name: String,
        site_type: String,
        domain: Option<String>,
        template_id: Option<String>,
        template_version: Option<String>,
        preset_id: Option<String>,
    },
    PublishPage {
        enterprise: u128,
        site: u128,
        page: String,
        expected_revision: i64,
        operation: u128,
    },
    ListOutposts { enterprise: Option<u128>, site: Option<u128> },
    AssignOutpost { enterprise: u128, site: u128, node: u128, operation: u128 },
    UnassignOutpost { enterprise: u128, site: u128, node: u128, operation: u128 },
    RunAgent { enterprise: u128, site: u128, message: String },
    ConfirmAgent { enterprise: u128, site: u128, approval: u128, approve: bool, reject: bool },
    AgentSession { enterprise: u128, site: u128 },
    CancelAgent { enterprise: u128, site: u128 },
    AgentAudit { enterprise: u128, site: u128 },
}

/// Why an operation is refused before any request is sent.
#[derive(Debug, Clone, Copy, PartialEq, Eq, Structural)]
pub enum CommandError {
    /// A site type other than `site` or `e-catalog`.
    UnsupportedSiteType,
    /// A template id without a template version, or the other way round.
    IncompleteTemplate,
    /// A preset without a template id.
    PresetWithoutTemplate,
    /// A publication whose expected revision is below 1.
    NonPositiveRevision,
    /// An agent confirmation with both or neither of approve and reject.
    ApprovalChoiceRequired,
}

impl CommandError {
    /// The message shown to the user.
    pub fn message(&self) -> (text: String)
        ensures
            *self == CommandError::UnsupportedSiteType ==> text@
                == "site-type must be site or e-catalog"@,
            *self == CommandError::IncompleteTemplate ==> text@
                == "template-id and template-version must be given together"@,
            *self == CommandError::PresetWithoutTemplate ==> text@
                == "preset-id requires template-id"@,
            *self == CommandError::NonPositiveRevision ==> text@
                == "expected-revision must be positive"@,
            *self == CommandError::ApprovalChoiceRequired ==> text@
                == "exactly one of --approve or --reject is required"@,
    {
        match self {
            CommandError::UnsupportedSiteType => String::from_str(
                "site-type must be site or e-catalog",
            ),
            CommandError::IncompleteTemplate => String::from_str(
                "template-id and template-version must be given together",
            ),
            CommandError::PresetWithoutTemplate => String::from_str(
                "preset-id requires template-id",
            ),
            CommandError::NonPositiveRevision => String::from_str(
                "expected-revision must be positive",
            ),
            CommandError::ApprovalChoiceRequired => String::from_str(
                "exactly one of --approve or --reject is required",
            ),
        }
    }
}

/// The site types that a site can be created with.
pub open spec fn is_site_type(t: Seq<char>) -> bool {
    t == "site"@ || t == "e-catalog"@
}

/// The refusal that `op` meets, if any; tested in this order.
pub open spec fn refusal(op: Operation) -> Option<CommandError> {
    match op {
        Operation::CreateSite { site_type, template_id, template_version, preset_id, .. } => {
            if !is_site_type(site_type@) {
                Some(CommandError::UnsupportedSiteType)
            } else if template_id is Some != template_version is Some {
                Some(CommandError::IncompleteTemplate)
            } else if preset_id is Some && template_id is None {
                Some(CommandError::PresetWithoutTemplate)
            } else {
                None
            }
        },
        Operation::PublishPage { expected_revision, .. } => {
            if expected_revision < 1 {
                Some(CommandError::NonPositiveRevision)
            } else {
                None
            }
        },
        Operation::ConfirmAgent { approve, reject, .. } => {
            if approve == reject {
                Some(CommandError::ApprovalChoiceRequired)
            } else {
                None
            }
        },
        _ => None,
    }
}

/// The field `key` with text `t`, where `t` is present; else no field.
pub open spec fn optional_text_field(key: Seq<char>, t: Option<String>) -> Seq<
    (Seq<char>, FieldContent),
> {
    match t {
        Some(s) => seq![(key, FieldContent::Text(s@))],
        None => seq![],
    }
}

/// The request that starts `op`.
pub open spec fn start_request(op: Operation) -> PlanContent {
    match op {
        Operation::ProvisionEnterprise {
            operation,
            name,
            owner,
            license_template,
            expires_at_seconds,
        } => PlanContent {
            action: "Platform.Enterprise.Provision.Start"@,
            enterprise: None,
            fields: seq![
                ("operation_id"@, FieldContent::Id(operation)),
                ("display_name"@, FieldContent::Text(name@)),
                ("owner_account_id"@, FieldContent::Id(owner)),
                ("license_template_id"@, FieldContent::Id(license_template)),
                ("license_expires_at_seconds"@, FieldContent::Integer(expires_at_seconds)),
            ],
        },
        Operation::CreateSite {
            enterprise,
            operation,
            name,
            site_type,
            domain,
            template_id,
            template_version,
            preset_id,
        } => PlanContent {
            action: "Client.Tenant.Sites.Create"@,
            enterprise: Some(enterprise),
            fields: seq![
                ("operation_id"@, FieldContent::Id(operation)),
                ("name"@, FieldContent::Text(name@)),
                ("site_type"@, FieldContent::Text(site_type@)),
                ("primary_domain"@, FieldContent::MaybeText(optional_string(domain))),
            ] + optional_text_field("template_id"@, template_id) + optional_text_field(
                "template_version"@,
                template_version,
            ) + optional_text_field("preset_id"@, preset_id),
        },
        Operation::PublishPage { enterprise, site, page, expected_revision, operation } => {
            PlanContent {
                action: "Client.NeoCMS.Page.Publish"@,
                enterprise: Some(enterprise),
                fields: seq![
                    ("operation_id"@, FieldContent::Id(operation)),
                    ("site_id"@, FieldContent::Id(site)),
                    ("page_key"@, FieldContent::Text(page@)),
                    ("expected_revision"@, FieldContent::Integer(expected_revision)),
                ],
            }
        },
        Operation::ListOutposts { enterprise, site } => PlanContent {
            action: "Platform.Outpost.Site.List"@,
            enterprise: None,
            fields: seq![
                ("enterprise_id"@, FieldContent::MaybeId(enterprise)),
                ("site_id"@, FieldContent::MaybeId(site)),
            ],
        },
        Operation::AssignOutpost { enterprise, site, node, operation } => PlanContent {
            action: "Platform.Outpost.Site.Assign"@,
            enterprise: None,
            fields: seq![
                ("operation_id"@, FieldContent::Id(operation)),
                ("enterprise_id"@, FieldContent::Id(enterprise)),
                ("site_id"@, FieldContent::Id(site)),
                ("node_id"@, FieldContent::Id(node)),
            ],
        },
        Operation::UnassignOutpost { enterprise, site, node, operation } => PlanContent {
            action: "Platform.Outpost.Site.Unassign"@,
            enterprise: None,
            fields: seq![
                ("operation_id"@, FieldContent::Id(operation)),
                ("enterprise_id"@, FieldContent::Id(enterprise)),
                ("site_id"@, FieldContent::Id(site)),
                ("node_id"@, FieldContent::Id(node)),
            ],
        },
        Operation::RunAgent { enterprise, site, message } => PlanContent {
            action: "Client.Platform.Agent.Run"@,
            enterprise: Some(enterprise),
            fields: seq![
                ("site_id"@, FieldContent::Id(site)),
                ("message"@, FieldContent::Text(message@)),
            ],
        },
        Operation::ConfirmAgent { enterprise, site, approval, approve, .. } => PlanContent {
            action: "Client.Platform.Agent.Confirm"@,
            enterprise: Some(enterprise),
            fields: seq![
                ("site_id"@, FieldContent::Id(site)),
                ("approval_id"@, FieldContent::Id(approval)),
                ("approved"@, FieldContent::Flag(approve)),
            ],
        },
        Operation::AgentSession { enterprise, site } => PlanContent {
            action: "Client.Platform.Agent.Session"@,
            enterprise: Some(enterprise),
            fields: seq![("site_id"@, FieldContent::Id(site))],
        },
        Operation::CancelAgent { enterprise, site } => PlanContent {
            action: "Client.Platform.Agent.Cancel"@,
            enterprise: Some(enterprise),
            fields: seq![("site_id"@, FieldContent::Id(site))],
        },
        Operation::AgentAudit { enterprise, site } => PlanContent {
            action: "Client.Platform.Agent.Audit"@,
            enterprise: Some(enterprise),
            fields: seq![("site_id"@, FieldContent::Id(site))],
        },
    }
}

/// How the outcome of an operation is followed.
#[derive(Debug, Clone, Copy, PartialEq, Eq, Structural)]
pub enum Follow {
    /// The reply to the first request is the result.
    Reply,
    /// Poll a provisioning task's `state` (see `provisioning_step`).
    TaskState,
    /// Poll a publication's `status` (see `publication_step`).
    PublicationStatus,
}

/// How the outcome of `op` is followed.
pub open spec fn follow_of(op: Operation) -> Follow {
    match op {
        Operation::ProvisionEnterprise { .. } => Follow::TaskState,
        Operation::CreateSite { .. } => Follow::TaskState,
        Operation::PublishPage { .. } => Follow::PublicationStatus,
        _ => Follow::Reply,
    }
}

/// The request that asks for the status of `op`, where it is polled.
pub open spec fn status_request(op: Operation) -> Option<PlanContent> {
    match op {
        Operation::ProvisionEnterprise { operation, .. } => Some(
            PlanContent {
                action: "Platform.Enterprise.Provision.Get"@,
                enterprise: None,
                fields: seq![("operation_id"@, FieldContent::Id(operation))],
            },
        ),
        Operation::CreateSite { enterprise, operation, .. } => Some(
            PlanContent {
                action: "Client.Tenant.Sites.CreateStatus"@,
                enterprise: Some(enterprise),
                fields: seq![("operation_id"@, FieldContent::Id(operation))],
            },
        ),
        Operation::PublishPage { enterprise, site, page, operation, .. } => Some(
            PlanContent {
                action: "Client.NeoCMS.Page.PublishStatus"@,
                enterprise: Some(enterprise),
                fields: seq![
                    ("task_id"@, FieldContent::Id(operation)),
                    ("site_id"@, FieldContent::Id(site)),
                    ("page_key"@, FieldContent::Text(page@)),
                ],
            },
        ),
        _ => None,
    }
}

fn push_field(fields: &mut Vec<Field>, key: &str, value: FieldValue)
    ensures
        fields_view(final(fields)@) == fields_view(old(fields)@).push((key@, value@)),
{
    let ghost before = fields@;
    fields.push(Field { key: String::from_str(key), value });
    proof {
        assert(fields_view(fields@) =~= fields_view(before).push((key@, value@)));
    }
}

fn push_optional_text(fields: &mut Vec<Field>, key: &str, t: &Option<String>)
    ensures
        fields_view(final(fields)@) == fields_view(old(fields)@) + optional_text_field(key@, *t),
{
    match t {
        Some(s) => {
            push_field(fields, key, FieldValue::Text(s.clone()));
        },
        None => {
            assert(fields_view(fields@) =~= fields_view(fields@) + optional_text_field(key@, *t));
        },
    }
}

fn clone_optional_text(t: &Option<String>) -> (r: Option<String>)
    ensures
        optional_string(r) == optional_string(*t),
{
    match t {
        Some(s) => Some(s.clone()),
        None => None,
    }
}

fn new_plan(action: &str, enterprise: Option<u128>, fields: Vec<Field>) -> (plan: RequestPlan)
    ensures
        plan@ == (PlanContent { action: action@, enterprise, fields: fields_view(fields@) }),
{
    RequestPlan { action: String::from_str(action), enterprise, fields }
}

fn site_type_supported(t: &String) -> (r: bool)
    ensures
        r == is_site_type(t@),
{
    crate::text::same_text(t.as_str(), "site") || crate::text::same_text(t.as_str(), "e-catalog")
}

/// The refusal that `op` meets, tested before any request is sent.
pub fn validate_operation(op: &Operation) -> (r: Result<(), CommandError>)
    ensures
        match refusal(*op) {
            Some(e) => r == Err::<(), CommandError>(e),
            None => r is Ok,
        },
{
    match op {
        Operation::CreateSite { site_type, template_id, template_version, preset_id, .. } => {
            if !site_type_supported(site_type) {
                Err(CommandError::UnsupportedSiteType)
            } else if template_id.is_some() != template_version.is_some() {
                Err(CommandError::IncompleteTemplate)
            } else if preset_id.is_some() && template_id.is_none() {
                Err(CommandError::PresetWithoutTemplate)
            } else {
                Ok(())
            }
        },
        Operation::PublishPage { expected_revision, .. } => {
            if *expected_revision < 1 {
                Err(CommandError::NonPositiveRevision)
            } else {
                Ok(())
            }
        },
        Operation::ConfirmAgent { approve, reject, .. } => {
            if *approve == *reject {
                Err(CommandError::ApprovalChoiceRequired)
            } else {
                Ok(())
            }
        },
        _ => Ok(()),
    }
}

fn site_fields(site: u128) -> (fields: Vec<Field>)
    ensures
        fields_view(fields@) == seq![("site_id"@, FieldContent::Id(site))],
{
    let mut fields: Vec<Field> = Vec::new();
    proof {
        assert(fields_view(fields@) =~= seq![]);
    }
    push_field(&mut fields, "site_id", FieldValue::Id(site));
    fields
}

fn outpost_fields(enterprise: u128, site: u128, node: u128, operation: u128) -> (fields: Vec<
    Field,
>)
    ensures
        fields_view(fields@) == seq![
            ("operation_id"@, FieldContent::Id(operation)),
            ("enterprise_id"@, FieldContent::Id(enterprise)),
            ("site_id"@, FieldContent::Id(site)),
            ("node_id"@, FieldContent::Id(node)),
        ],
{
    let mut fields: Vec<Field> = Vec::new();
    proof {
        assert(fields_view(fields@) =~= seq![]);
    }
    push_field(&mut fields, "operation_id", FieldValue::Id(operation));
    push_field(&mut fields, "enterprise_id", FieldValue::Id(enterprise));
    push_field(&mut fields, "site_id", FieldValue::Id(site));
    push_field(&mut fields, "node_id", FieldValue::Id(node));
    fields
}

fn create_site_request(
    enterprise: u128,
    operation: u128,
    name: &String,
    site_type: &String,
    domain: &Option<String>,
    template_id: &Option<String>,
    template_version: &Option<String>,
    preset_id: &Option<String>,
) -> (plan: RequestPlan)
    ensures
        plan@ == start_request(
            Operation::CreateSite {
                enterprise,
                operation,
                name: *name,
                site_type: *site_type,
                domain: *domain,
                template_id: *template_id,
                template_version: *template_version,
                preset_id: *preset_id,
            },
        ),
{
    let mut fields: Vec<Field> = Vec::new();
    proof {
        assert(fields_view(fields@) =~= seq![]);
    }
    push_field(&mut fields, "operation_id", FieldValue::Id(operation));
    push_field(&mut fields, "name", FieldValue::Text(name.clone()));
    push_field(&mut fields, "site_type", FieldValue::Text(site_type.clone()));
    push_field(&mut fields, "primary_domain", FieldValue::MaybeText(clone_optional_text(domain)));
    assert(fields_view(fields@) =~= seq![
        ("operation_id"@, FieldContent::Id(operation)),
        ("name"@, FieldContent::Text(name@)),
        ("site_type"@, FieldContent::Text(site_type@)),
        ("primary_domain"@, FieldContent::MaybeText(optional_string(*domain))),
    ]);
    push_optional_text(&mut fields, "template_id", template_id);
    push_optional_text(&mut fields, "template_version", template_version);
    push_optional_text(&mut fields, "preset_id", preset_id);
    new_plan("Client.Tenant.Sites.Create", Some(enterprise), fields)
}

/// The request that starts `op`, unless `op` is refused.
pub fn start_plan(op: &Operation) -> (r: Result<RequestPlan, CommandError>)
    ensures
        match refusal(*op) {
            Some(e) => r matches Err(f) && f == e,
            None => r matches Ok(plan) && plan@ == start_request(*op),
        },
{
    match validate_operation(op) {
        Err(e) => return Err(e),
        Ok(()) => {},
    }
    let plan = match op {
        Operation::ProvisionEnterprise {
            operation,
            name,
            owner,
            license_template,
            expires_at_seconds,
        } => {
            let mut fields: Vec<Field> = Vec::new();
            proof {
                assert(fields_view(fields@) =~= seq![]);
            }
            push_field(&mut fields, "operation_id", FieldValue::Id(*operation));
            push_field(&mut fields, "display_name", FieldValue::Text(name.clone()));
            push_field(&mut fields, "owner_account_id", FieldValue::Id(*owner));
            push_field(&mut fields, "license_template_id", FieldValue::Id(*license_template));
            push_field(
                &mut fields,
                "license_expires_at_seconds",
                FieldValue::Integer(*expires_at_seconds),
            );
            assert(fields_view(fields@) =~= start_request(*op).fields);
            new_plan("Platform.Enterprise.Provision.Start", None, fields)
        },
        Operation::CreateSite {
            enterprise,
            operation,
            name,
            site_type,
            domain,
            template_id,
            template_version,
            preset_id,
        } => create_site_request(
            *enterprise,
            *operation,
            name,
            site_type,
            domain,
            template_id,
            template_version,
            preset_id,
        ),
        Operation::PublishPage { enterprise, site, page, expected_revision, operation } => {
            let mut fields: Vec<Field> = Vec::new();
            proof {
                assert(fields_view(fields@) =~= seq![]);
            }
            push_field(&mut fields, "operation_id", FieldValue::Id(*operation));
            push_field(&mut fields, "site_id", FieldValue::Id(*site));
            push_field(&mut fields, "page_key", FieldValue::Text(page.clone()));
            push_field(&mut fields, "expected_revision", FieldValue::Integer(*expected_revision));
            assert(fields_view(fields@) =~= start_request(*op).fields);
            new_plan("Client.NeoCMS.Page.Publish", Some(*enterprise), fields)
        },
        Operation::ListOutposts { enterprise, site } => {
            let mut fields: Vec<Field> = Vec::new();
            proof {
                assert(fields_view(fields@) =~= seq![]);
            }
            push_field(&mut fields, "enterprise_id", FieldValue::MaybeId(*enterprise));
            push_field(&mut fields, "site_id", FieldValue::MaybeId(*site));
            assert(fields_view(fields@) =~= start_request(*op).fields);
            new_plan("Platform.Outpost.Site.List", None, fields)
        },
        Operation::AssignOutpost { enterprise, site, node, operation } => new_plan(
            "Platform.Outpost.Site.Assign",
            None,
            outpost_fields(*enterprise, *site, *node, *operation),
        ),
        Operation::UnassignOutpost { enterprise, site, node, operation } => new_plan(
            "Platform.Outpost.Site.Unassign",
            None,
            outpost_fields(*enterprise, *site, *node, *operation),
        ),
        Operation::RunAgent { enterprise, site, message } => {
            let mut fields: Vec<Field> = Vec::new();
            proof {
                assert(fields_view(fields@) =~= seq![]);
            }
            push_field(&mut fields, "site_id", FieldValue::Id(*site));
            push_field(&mut fields, "message", FieldValue::Text(message.clone()));
            assert(fields_view(fields@) =~= start_request(*op).fields);
            new_plan("Client.Platform.Agent.Run", Some(*enterprise), fields)
        },
        Operation::ConfirmAgent { enterprise, site, approval, approve, .. } => {
            let mut fields: Vec<Field> = Vec::new();
            proof {
                assert(fields_view(fields@) =~= seq![]);
            }
            push_field(&mut fields, "site_id", FieldValue::Id(*site));
            push_field(&mut fields, "approval_id", FieldValue::Id(*approval));
            push_field(&mut fields, "approved", FieldValue::Flag(*approve));
            assert(fields_view(fields@) =~= start_request(*op).fields);
            new_plan("Client.Platform.Agent.Confirm", Some(*enterprise), fields)
        },
        Operation::AgentSession { enterprise, site } => new_plan(
            "Client.Platform.Agent.Session",
            Some(*enterprise),
            site_fields(*site),
        ),
        Operation::CancelAgent { enterprise, site } => new_plan(
            "Client.Platform.Agent.Cancel",
            Some(*enterprise),
            site_fields(*site),
        ),
        Operation::AgentAudit { enterprise, site } => new_plan(
            "Client.Platform.Agent.Audit",
            Some(*enterprise),
            site_fields(*site),
        ),
    };
    Ok(plan)
}

/// How the outcome of `op` is followed.
pub fn follow(op: &Operation) -> (f: Follow)
    ensures
        f == follow_of(*op),
{
    match op {
        Operation::ProvisionEnterprise { .. } => Follow::TaskState,
        Operation::CreateSite { .. } => Follow::TaskState,
        Operation::PublishPage { .. } => Follow::PublicationStatus,
        _ => Follow::Reply,
    }
}

/// The request that asks for the status of `op`; `None` where the reply to
/// the first request is the result.
pub fn status_plan(op: &Operation) -> (r: Option<RequestPlan>)
    ensures
        match status_request(*op) {
            Some(content) => r matches Some(plan) && plan@ == content,
            None => r is None,
        },
{
    match op {
        Operation::ProvisionEnterprise { operation, .. } => {
            let mut fields: Vec<Field> = Vec::new();
            proof {
                assert(fields_view(fields@) =~= seq![]);
            }
            push_field(&mut fields, "operation_id", FieldValue::Id(*operation));
            assert(fields_view(fields@) =~= status_request(*op).unwrap().fields);
            Some(new_plan("Platform.Enterprise.Provision.Get", None, fields))
        },
        Operation::CreateSite { enterprise, operation, .. } => {
            let mut fields: Vec<Field> = Vec::new();
            proof {
                assert(fields_view(fields@) =~= seq![]);
            }
            push_field(&mut fields, "operation_id", FieldValue::Id(*operation));
            assert(fields_view(fields@) =~= status_request(*op).unwrap().fields);
            Some(new_plan("Client.Tenant.Sites.CreateStatus", Some(*enterprise), fields))
        },
        Operation::PublishPage { enterprise, site, page, operation, .. } => {
            let mut fields: Vec<Field> = Vec::new();
            proof {
                assert(fields_view(fields@) =~= seq![]);
            }
            push_field(&mut fields, "task_id", FieldValue::Id(*operation));
            push_field(&mut fields, "site_id", FieldValue::Id(*site));
            push_field(&mut fields, "page_key", FieldValue::Text(page.clone()));
            assert(fields_view(fields@) =~= status_request(*op).unwrap().fields);
            Some(new_plan("Client.NeoCMS.Page.PublishStatus", Some(*enterprise), fields))
        },
        _ => None,
    }
}

/// Each polled operation is polled under the id it was started with and in
/// the scope it was started in: the first field of its status request
/// carries the value of the `operation_id` field of its start request.
pub proof fn lemma_status_follows_started_operation(op: Operation)
    ensures
        (status_request(op) is Some) <==> (follow_of(op) != Follow::Reply),
        status_request(op) matches Some(status) ==> {
            &&& start_request(op).fields[0].0 == "operation_id"@
            &&& status.fields[0].1 == start_request(op).fields[0].1
            &&& status.enterprise == start_request(op).enterprise
        },
{
    match op {
        Operation::CreateSite { .. } => {
            let fixed = start_request(op).fields;
            assert(fixed[0].0 == "operation_id"@);
        },
        _ => {},
    }
}

} // verus!
