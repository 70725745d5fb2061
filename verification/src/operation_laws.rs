//! What each operation's requests carry, stated field by field against the
//! operation's inputs: the value sent under each payload key, and the cases
//! in which an operation is refused.

use vstd::prelude::*;
use crate::operations::{
    follow_of, optional_string, refusal, start_request, status_request, CommandError, FieldContent,
    Follow, Operation,
};

verus! {

/// The payload sends `value` under `key`: some field has that key and that
/// value, and every field with that key has that value.
pub open spec fn sends(fields: Seq<(Seq<char>, FieldContent)>, key: Seq<char>, value: FieldContent) -> bool {
    &&& exists|i: int| 0 <= i < fields.len() && #[trigger] fields[i] == (key, value)
    &&& forall|i: int| 0 <= i < fields.len() && (#[trigger] fields[i]).0 == key ==> fields[i].1 == value
}

/// The payload has no field under `key`.
pub open spec fn omits(fields: Seq<(Seq<char>, FieldContent)>, key: Seq<char>) -> bool {
    forall|i: int| 0 <= i < fields.len() ==> (#[trigger] fields[i]).0 != key
}

/// The payload sends `value` under `key` where `value` is present, and has
/// no field under `key` where it is absent.
pub open spec fn sends_if_present(fields: Seq<(Seq<char>, FieldContent)>, key: Seq<char>, value: Option<String>) -> bool {
    match value {
        Some(v) => sends(fields, key, FieldContent::Text(v@)),
        None => omits(fields, key),
    }
}

proof fn lemma_sends_extend(a: Seq<(Seq<char>, FieldContent)>, b: Seq<(Seq<char>, FieldContent)>, key: Seq<char>, value: FieldContent)
    ensures
        sends(a, key, value) && omits(b, key) ==> sends(a + b, key, value),
        omits(a, key) && sends(b, key, value) ==> sends(a + b, key, value),
        omits(a, key) && omits(b, key) ==> omits(a + b, key),
{
    let s = a + b;
    if sends(a, key, value) && omits(b, key) {
        let w = choose|i: int| 0 <= i < a.len() && #[trigger] a[i] == (key, value);
        assert(s[w] == a[w]);
        assert forall|i: int| 0 <= i < s.len() && (#[trigger] s[i]).0 == key implies s[i].1 == value by {
            if i < a.len() {
                assert(s[i] == a[i]);
            } else {
                assert(s[i] == b[i - a.len()]);
            }
        }
    }
    if omits(a, key) && sends(b, key, value) {
        let w = choose|i: int| 0 <= i < b.len() && #[trigger] b[i] == (key, value);
        assert(s[w + a.len()] == b[w]);
        assert forall|i: int| 0 <= i < s.len() && (#[trigger] s[i]).0 == key implies s[i].1 == value by {
            if i < a.len() {
                assert(s[i] == a[i]);
            } else {
                assert(s[i] == b[i - a.len()]);
            }
        }
    }
    if omits(a, key) && omits(b, key) {
        assert forall|i: int| 0 <= i < s.len() implies (#[trigger] s[i]).0 != key by {
            if i < a.len() {
                assert(s[i] == a[i]);
            } else {
                assert(s[i] == b[i - a.len()]);
            }
        }
    }
}

/// A site creation sends, in the enterprise given, the operation id, name,
/// site type and primary domain given, and the template id, template
/// version and preset given, each under its own key and only where given.
pub proof fn lemma_site_creation_request(
    enterprise: u128,
    operation: u128,
    name: String,
    site_type: String,
    domain: Option<String>,
    template_id: Option<String>,
    template_version: Option<String>,
    preset_id: Option<String>,
)
    ensures ({
        let op = Operation::CreateSite { enterprise, operation, name, site_type, domain, template_id, template_version, preset_id };
        let f = start_request(op).fields;
        &&& start_request(op).action == "Client.Tenant.Sites.Create"@
        &&& start_request(op).enterprise == Some(enterprise)
        &&& sends(f, "operation_id"@, FieldContent::Id(operation))
        &&& sends(f, "name"@, FieldContent::Text(name@))
        &&& sends(f, "site_type"@, FieldContent::Text(site_type@))
        &&& sends(f, "primary_domain"@, FieldContent::MaybeText(optional_string(domain)))
        &&& sends_if_present(f, "template_id"@, template_id)
        &&& sends_if_present(f, "template_version"@, template_version)
        &&& sends_if_present(f, "preset_id"@, preset_id)
    }),
{
    reveal_strlit("operation_id");
    reveal_strlit("name");
    reveal_strlit("site_type");
    reveal_strlit("primary_domain");
    reveal_strlit("template_id");
    reveal_strlit("template_version");
    reveal_strlit("preset_id");
    assert("operation_id"@.len() == 12 && "name"@.len() == 4 && "site_type"@.len() == 9
        && "primary_domain"@.len() == 14 && "template_id"@.len() == 11
        && "template_version"@.len() == 16 && "preset_id"@.len() == 9);
    assert("site_type"@[0] == 's' && "preset_id"@[0] == 'p');
    let op = Operation::CreateSite { enterprise, operation, name, site_type, domain, template_id, template_version, preset_id };
    let base = seq![
        ("operation_id"@, FieldContent::Id(operation)),
        ("name"@, FieldContent::Text(name@)),
        ("site_type"@, FieldContent::Text(site_type@)),
        ("primary_domain"@, FieldContent::MaybeText(optional_string(domain))),
    ];
    let o1 = crate::operations::optional_text_field("template_id"@, template_id);
    let o2 = crate::operations::optional_text_field("template_version"@, template_version);
    let o3 = crate::operations::optional_text_field("preset_id"@, preset_id);
    assert(start_request(op).fields == base + o1 + o2 + o3);
    assert(omits(o1, "operation_id"@) && omits(o2, "operation_id"@) && omits(o3, "operation_id"@));
    assert(omits(o1, "name"@) && omits(o2, "name"@) && omits(o3, "name"@));
    assert(omits(o1, "site_type"@) && omits(o2, "site_type"@) && omits(o3, "site_type"@));
    assert(omits(o1, "primary_domain"@) && omits(o2, "primary_domain"@) && omits(o3, "primary_domain"@));
    assert(omits(base, "template_id"@) && omits(o2, "template_id"@) && omits(o3, "template_id"@));
    assert(omits(base, "template_version"@) && omits(o1, "template_version"@) && omits(o3, "template_version"@));
    assert(omits(base, "preset_id"@) && omits(o1, "preset_id"@) && omits(o2, "preset_id"@));
    assert(sends(base, "operation_id"@, FieldContent::Id(operation))) by {
        assert(base[0] == ("operation_id"@, FieldContent::Id(operation)));
    }
    assert(sends(base, "name"@, FieldContent::Text(name@))) by {
        assert(base[1] == ("name"@, FieldContent::Text(name@)));
    }
    assert(sends(base, "site_type"@, FieldContent::Text(site_type@))) by {
        assert(base[2] == ("site_type"@, FieldContent::Text(site_type@)));
    }
    assert(sends(base, "primary_domain"@, FieldContent::MaybeText(optional_string(domain)))) by {
        assert(base[3] == ("primary_domain"@, FieldContent::MaybeText(optional_string(domain))));
    }
    lemma_base_key(base, o1, o2, o3, "operation_id"@, FieldContent::Id(operation));
    lemma_base_key(base, o1, o2, o3, "name"@, FieldContent::Text(name@));
    lemma_base_key(base, o1, o2, o3, "site_type"@, FieldContent::Text(site_type@));
    lemma_base_key(base, o1, o2, o3, "primary_domain"@, FieldContent::MaybeText(optional_string(domain)));
    lemma_optional_key(base, o1, o2, o3, 1, "template_id"@, template_id);
    lemma_optional_key(base, o1, o2, o3, 2, "template_version"@, template_version);
    lemma_optional_key(base, o1, o2, o3, 3, "preset_id"@, preset_id);
}

proof fn lemma_base_key(
    base: Seq<(Seq<char>, FieldContent)>,
    o1: Seq<(Seq<char>, FieldContent)>,
    o2: Seq<(Seq<char>, FieldContent)>,
    o3: Seq<(Seq<char>, FieldContent)>,
    key: Seq<char>,
    value: FieldContent,
)
    requires
        sends(base, key, value),
        omits(o1, key),
        omits(o2, key),
        omits(o3, key),
    ensures
        sends(base + o1 + o2 + o3, key, value),
{
    lemma_sends_extend(base, o1, key, value);
    lemma_sends_extend(base + o1, o2, key, value);
    lemma_sends_extend(base + o1 + o2, o3, key, value);
}

proof fn lemma_optional_key(
    base: Seq<(Seq<char>, FieldContent)>,
    o1: Seq<(Seq<char>, FieldContent)>,
    o2: Seq<(Seq<char>, FieldContent)>,
    o3: Seq<(Seq<char>, FieldContent)>,
    slot: int,
    key: Seq<char>,
    given: Option<String>,
)
    requires
        1 <= slot <= 3,
        omits(base, key),
        slot != 1 ==> omits(o1, key),
        slot != 2 ==> omits(o2, key),
        slot != 3 ==> omits(o3, key),
        slot == 1 ==> o1 == crate::operations::optional_text_field(key, given),
        slot == 2 ==> o2 == crate::operations::optional_text_field(key, given),
        slot == 3 ==> o3 == crate::operations::optional_text_field(key, given),
    ensures
        sends_if_present(base + o1 + o2 + o3, key, given),
{
    let o = crate::operations::optional_text_field(key, given);
    match given {
        Some(v) => {
            let value = FieldContent::Text(v@);
            assert(o[0] == (key, value));
            assert(sends(o, key, value));
            lemma_sends_extend(base, o1, key, value);
            lemma_sends_extend(base + o1, o2, key, value);
            lemma_sends_extend(base + o1 + o2, o3, key, value);
        },
        None => {
            let value = FieldContent::Flag(false);
            lemma_sends_extend(base, o1, key, value);
            lemma_sends_extend(base + o1, o2, key, value);
            lemma_sends_extend(base + o1 + o2, o3, key, value);
        },
    }
}

/// An enterprise provisioning is started platform-wide with the operation
/// id, display name, owner, license template and expiry given, each under
/// its own key, and polled under that same operation id.
pub proof fn lemma_enterprise_provisioning_request(
    operation: u128,
    name: String,
    owner: u128,
    license_template: u128,
    expires_at_seconds: i64,
)
    ensures ({
        let op = Operation::ProvisionEnterprise { operation, name, owner, license_template, expires_at_seconds };
        let f = start_request(op).fields;
        &&& refusal(op) is None
        &&& follow_of(op) == Follow::TaskState
        &&& start_request(op).action == "Platform.Enterprise.Provision.Start"@
        &&& start_request(op).enterprise is None
        &&& sends(f, "operation_id"@, FieldContent::Id(operation))
        &&& sends(f, "display_name"@, FieldContent::Text(name@))
        &&& sends(f, "owner_account_id"@, FieldContent::Id(owner))
        &&& sends(f, "license_template_id"@, FieldContent::Id(license_template))
        &&& sends(f, "license_expires_at_seconds"@, FieldContent::Integer(expires_at_seconds))
        &&& status_request(op) matches Some(status) && status.action == "Platform.Enterprise.Provision.Get"@
            && status.enterprise is None
            && sends(status.fields, "operation_id"@, FieldContent::Id(operation))
    }),
{
    reveal_strlit("operation_id");
    reveal_strlit("display_name");
    reveal_strlit("owner_account_id");
    reveal_strlit("license_template_id");
    reveal_strlit("license_expires_at_seconds");
    assert("operation_id"@.len() == 12 && "display_name"@.len() == 12 && "owner_account_id"@.len() == 16
        && "license_template_id"@.len() == 19 && "license_expires_at_seconds"@.len() == 26);
    assert("operation_id"@[0] == 'o' && "display_name"@[0] == 'd');
    let op = Operation::ProvisionEnterprise { operation, name, owner, license_template, expires_at_seconds };
    let f = start_request(op).fields;
    assert(f[0] == ("operation_id"@, FieldContent::Id(operation)));
    assert(f[1] == ("display_name"@, FieldContent::Text(name@)));
    assert(f[2] == ("owner_account_id"@, FieldContent::Id(owner)));
    assert(f[3] == ("license_template_id"@, FieldContent::Id(license_template)));
    assert(f[4] == ("license_expires_at_seconds"@, FieldContent::Integer(expires_at_seconds)));
    let g = status_request(op).unwrap().fields;
    assert(g[0] == ("operation_id"@, FieldContent::Id(operation)));
}

/// A site creation is polled in the enterprise it was created in, under the
/// operation id it was created with.
pub proof fn lemma_site_creation_status_request(
    enterprise: u128,
    operation: u128,
    name: String,
    site_type: String,
    domain: Option<String>,
    template_id: Option<String>,
    template_version: Option<String>,
    preset_id: Option<String>,
)
    ensures ({
        let op = Operation::CreateSite { enterprise, operation, name, site_type, domain, template_id, template_version, preset_id };
        &&& follow_of(op) == Follow::TaskState
        &&& status_request(op) matches Some(status) && status.action == "Client.Tenant.Sites.CreateStatus"@
            && status.enterprise == Some(enterprise)
            && sends(status.fields, "operation_id"@, FieldContent::Id(operation))
    }),
{
    let op = Operation::CreateSite { enterprise, operation, name, site_type, domain, template_id, template_version, preset_id };
    let g = status_request(op).unwrap().fields;
    assert(g[0] == ("operation_id"@, FieldContent::Id(operation)));
}

/// A site creation is refused exactly when its site type is neither `site`
/// nor `e-catalog`, when only one of template id and template version is
/// given, or when a preset is given without a template id.
pub proof fn lemma_site_creation_refusal(
    enterprise: u128,
    operation: u128,
    name: String,
    site_type: String,
    domain: Option<String>,
    template_id: Option<String>,
    template_version: Option<String>,
    preset_id: Option<String>,
)
    ensures ({
        let op = Operation::CreateSite { enterprise, operation, name, site_type, domain, template_id, template_version, preset_id };
        &&& (refusal(op) is None) <==> ((site_type@ == "site"@ || site_type@ == "e-catalog"@)
            && (template_id is Some <==> template_version is Some)
            && (preset_id is Some ==> template_id is Some))
        &&& !(site_type@ == "site"@ || site_type@ == "e-catalog"@) ==> refusal(op) == Some(CommandError::UnsupportedSiteType)
    }),
{
}

/// A page publication is refused exactly when the expected revision is
/// below 1. It is started in the enterprise given, with the operation id,
/// site, page and expected revision given, each under its own key, and
/// polled with that operation id as task id, for that site and page.
pub proof fn lemma_page_publication_request(
    enterprise: u128,
    site: u128,
    page: String,
    expected_revision: i64,
    operation: u128,
)
    ensures ({
        let op = Operation::PublishPage { enterprise, site, page, expected_revision, operation };
        let f = start_request(op).fields;
        &&& (refusal(op) is Some) <==> expected_revision < 1
        &&& refusal(op) is Some ==> refusal(op) == Some(CommandError::NonPositiveRevision)
        &&& follow_of(op) == Follow::PublicationStatus
        &&& start_request(op).action == "Client.NeoCMS.Page.Publish"@
        &&& start_request(op).enterprise == Some(enterprise)
        &&& sends(f, "operation_id"@, FieldContent::Id(operation))
        &&& sends(f, "site_id"@, FieldContent::Id(site))
        &&& sends(f, "page_key"@, FieldContent::Text(page@))
        &&& sends(f, "expected_revision"@, FieldContent::Integer(expected_revision))
        &&& status_request(op) matches Some(status) && status.action == "Client.NeoCMS.Page.PublishStatus"@
            && status.enterprise == Some(enterprise)
            && sends(status.fields, "task_id"@, FieldContent::Id(operation))
            && sends(status.fields, "site_id"@, FieldContent::Id(site))
            && sends(status.fields, "page_key"@, FieldContent::Text(page@))
    }),
{
    reveal_strlit("operation_id");
    reveal_strlit("site_id");
    reveal_strlit("page_key");
    reveal_strlit("expected_revision");
    reveal_strlit("task_id");
    assert("operation_id"@.len() == 12 && "site_id"@.len() == 7 && "page_key"@.len() == 8
        && "expected_revision"@.len() == 17 && "task_id"@.len() == 7);
    assert("site_id"@[0] == 's' && "task_id"@[0] == 't');
    let op = Operation::PublishPage { enterprise, site, page, expected_revision, operation };
    let f = start_request(op).fields;
    assert(f[0] == ("operation_id"@, FieldContent::Id(operation)));
    assert(f[1] == ("site_id"@, FieldContent::Id(site)));
    assert(f[2] == ("page_key"@, FieldContent::Text(page@)));
    assert(f[3] == ("expected_revision"@, FieldContent::Integer(expected_revision)));
    let g = status_request(op).unwrap().fields;
    assert(g[0] == ("task_id"@, FieldContent::Id(operation)));
    assert(g[1] == ("site_id"@, FieldContent::Id(site)));
    assert(g[2] == ("page_key"@, FieldContent::Text(page@)));
}

/// Outposts are listed platform-wide, filtered by the enterprise and site
/// given (each sent as `null` where absent).
pub proof fn lemma_outpost_list_request(enterprise: Option<u128>, site: Option<u128>)
    ensures ({
        let op = Operation::ListOutposts { enterprise, site };
        let f = start_request(op).fields;
        &&& refusal(op) is None
        &&& status_request(op) is None
        &&& follow_of(op) == Follow::Reply
        &&& start_request(op).action == "Platform.Outpost.Site.List"@
        &&& start_request(op).enterprise is None
        &&& sends(f, "enterprise_id"@, FieldContent::MaybeId(enterprise))
        &&& sends(f, "site_id"@, FieldContent::MaybeId(site))
    }),
{
    reveal_strlit("enterprise_id");
    reveal_strlit("site_id");
    assert("enterprise_id"@.len() == 13 && "site_id"@.len() == 7);
    let op = Operation::ListOutposts { enterprise, site };
    let f = start_request(op).fields;
    assert(f[0] == ("enterprise_id"@, FieldContent::MaybeId(enterprise)));
    assert(f[1] == ("site_id"@, FieldContent::MaybeId(site)));
}

proof fn lemma_outpost_fields(f: Seq<(Seq<char>, FieldContent)>, enterprise: u128, site: u128, node: u128, operation: u128)
    requires
        f == seq![
            ("operation_id"@, FieldContent::Id(operation)),
            ("enterprise_id"@, FieldContent::Id(enterprise)),
            ("site_id"@, FieldContent::Id(site)),
            ("node_id"@, FieldContent::Id(node)),
        ],
    ensures
        sends(f, "operation_id"@, FieldContent::Id(operation)),
        sends(f, "enterprise_id"@, FieldContent::Id(enterprise)),
        sends(f, "site_id"@, FieldContent::Id(site)),
        sends(f, "node_id"@, FieldContent::Id(node)),
{
    reveal_strlit("operation_id");
    reveal_strlit("enterprise_id");
    reveal_strlit("site_id");
    reveal_strlit("node_id");
    assert("operation_id"@.len() == 12 && "enterprise_id"@.len() == 13 && "site_id"@.len() == 7
        && "node_id"@.len() == 7);
    assert("site_id"@[0] == 's' && "node_id"@[0] == 'n');
    assert(f[0] == ("operation_id"@, FieldContent::Id(operation)));
    assert(f[1] == ("enterprise_id"@, FieldContent::Id(enterprise)));
    assert(f[2] == ("site_id"@, FieldContent::Id(site)));
    assert(f[3] == ("node_id"@, FieldContent::Id(node)));
}

/// A site's assignment to an Outpost node is sent platform-wide with the
/// operation id, enterprise, site and node given, each under its own key.
pub proof fn lemma_outpost_assignment_request(enterprise: u128, site: u128, node: u128, operation: u128)
    ensures ({
        let op = Operation::AssignOutpost { enterprise, site, node, operation };
        let f = start_request(op).fields;
        &&& refusal(op) is None
        &&& status_request(op) is None
        &&& follow_of(op) == Follow::Reply
        &&& start_request(op).action == "Platform.Outpost.Site.Assign"@
        &&& start_request(op).enterprise is None
        &&& sends(f, "operation_id"@, FieldContent::Id(operation))
        &&& sends(f, "enterprise_id"@, FieldContent::Id(enterprise))
        &&& sends(f, "site_id"@, FieldContent::Id(site))
        &&& sends(f, "node_id"@, FieldContent::Id(node))
    }),
{
    let op = Operation::AssignOutpost { enterprise, site, node, operation };
    lemma_outpost_fields(start_request(op).fields, enterprise, site, node, operation);
}

/// A site's removal from an Outpost node is sent platform-wide with the
/// operation id, enterprise, site and node given, each under its own key.
pub proof fn lemma_outpost_unassignment_request(enterprise: u128, site: u128, node: u128, operation: u128)
    ensures ({
        let op = Operation::UnassignOutpost { enterprise, site, node, operation };
        let f = start_request(op).fields;
        &&& refusal(op) is None
        &&& status_request(op) is None
        &&& follow_of(op) == Follow::Reply
        &&& start_request(op).action == "Platform.Outpost.Site.Unassign"@
        &&& start_request(op).enterprise is None
        &&& sends(f, "operation_id"@, FieldContent::Id(operation))
        &&& sends(f, "enterprise_id"@, FieldContent::Id(enterprise))
        &&& sends(f, "site_id"@, FieldContent::Id(site))
        &&& sends(f, "node_id"@, FieldContent::Id(node))
    }),
{
    let op = Operation::UnassignOutpost { enterprise, site, node, operation };
    lemma_outpost_fields(start_request(op).fields, enterprise, site, node, operation);
}

/// An agent confirmation is refused exactly when approve and reject are
/// both set or both unset. Otherwise it is sent in the enterprise given,
/// for the site and approval given, with `approved` true exactly when the
/// approval was approved (and so false exactly when it was rejected).
pub proof fn lemma_agent_confirmation_request(
    enterprise: u128,
    site: u128,
    approval: u128,
    approve: bool,
    reject: bool,
)
    ensures ({
        let op = Operation::ConfirmAgent { enterprise, site, approval, approve, reject };
        let f = start_request(op).fields;
        &&& (refusal(op) is Some) <==> (approve == reject)
        &&& refusal(op) is Some ==> refusal(op) == Some(CommandError::ApprovalChoiceRequired)
        &&& refusal(op) is None ==> sends(f, "approved"@, FieldContent::Flag(approve))
            && sends(f, "approved"@, FieldContent::Flag(!reject))
        &&& status_request(op) is None
        &&& follow_of(op) == Follow::Reply
        &&& start_request(op).action == "Client.Platform.Agent.Confirm"@
        &&& start_request(op).enterprise == Some(enterprise)
        &&& sends(f, "site_id"@, FieldContent::Id(site))
        &&& sends(f, "approval_id"@, FieldContent::Id(approval))
        &&& sends(f, "approved"@, FieldContent::Flag(approve))
    }),
{
    reveal_strlit("site_id");
    reveal_strlit("approval_id");
    reveal_strlit("approved");
    assert("site_id"@.len() == 7 && "approval_id"@.len() == 11 && "approved"@.len() == 8);
    let op = Operation::ConfirmAgent { enterprise, site, approval, approve, reject };
    let f = start_request(op).fields;
    assert(f[0] == ("site_id"@, FieldContent::Id(site)));
    assert(f[1] == ("approval_id"@, FieldContent::Id(approval)));
    assert(f[2] == ("approved"@, FieldContent::Flag(approve)));
}

/// An agent run is sent in the enterprise given, for the site and with the
/// message given, each under its own key.
pub proof fn lemma_agent_run_request(enterprise: u128, site: u128, message: String)
    ensures ({
        let op = Operation::RunAgent { enterprise, site, message };
        let f = start_request(op).fields;
        &&& refusal(op) is None
        &&& status_request(op) is None
        &&& follow_of(op) == Follow::Reply
        &&& start_request(op).action == "Client.Platform.Agent.Run"@
        &&& start_request(op).enterprise == Some(enterprise)
        &&& sends(f, "site_id"@, FieldContent::Id(site))
        &&& sends(f, "message"@, FieldContent::Text(message@))
    }),
{
    reveal_strlit("site_id");
    reveal_strlit("message");
    assert("site_id"@.len() == 7 && "message"@.len() == 7);
    assert("site_id"@[0] == 's' && "message"@[0] == 'm');
    let op = Operation::RunAgent { enterprise, site, message };
    let f = start_request(op).fields;
    assert(f[0] == ("site_id"@, FieldContent::Id(site)));
    assert(f[1] == ("message"@, FieldContent::Text(message@)));
}

/// The agent session, cancellation and audit requests are sent in the
/// enterprise given with only the site given, under `site_id`.
pub proof fn lemma_agent_site_requests(enterprise: u128, site: u128)
    ensures
        ({
            let op = Operation::AgentSession { enterprise, site };
            &&& refusal(op) is None
            &&& follow_of(op) == Follow::Reply
            &&& start_request(op).action == "Client.Platform.Agent.Session"@
            &&& start_request(op).enterprise == Some(enterprise)
            &&& start_request(op).fields == seq![("site_id"@, FieldContent::Id(site))]
        }),
        ({
            let op = Operation::CancelAgent { enterprise, site };
            &&& refusal(op) is None
            &&& follow_of(op) == Follow::Reply
            &&& start_request(op).action == "Client.Platform.Agent.Cancel"@
            &&& start_request(op).enterprise == Some(enterprise)
            &&& start_request(op).fields == seq![("site_id"@, FieldContent::Id(site))]
        }),
        ({
            let op = Operation::AgentAudit { enterprise, site };
            &&& refusal(op) is None
            &&& follow_of(op) == Follow::Reply
            &&& start_request(op).action == "Client.Platform.Agent.Audit"@
            &&& start_request(op).enterprise == Some(enterprise)
            &&& start_request(op).fields == seq![("site_id"@, FieldContent::Id(site))]
        }),
{
}

} // verus!
