//! The replies of the HTTP surface, and the store updates that a settings
//! patch asks for. The handlers that talk to the network and to the store
//! hand what they were told to the functions here and send what comes back.

use vstd::prelude::*;

verus! {

/// The status code of a reply that went well.
pub const STATUS_OK: u16 = 200;

/// The status code of a reply about something the store does not hold.
pub const STATUS_NOT_FOUND: u16 = 404;

/// The status code of a reply about a store operation that failed.
pub const STATUS_INTERNAL_SERVER_ERROR: u16 = 500;

/// What a handler answers: a status code and a body, which is either a JSON
/// document or a line of plain text.
#[derive(Debug, PartialEq, Eq)]
pub struct Reply {
    pub status: u16,
    pub json: bool,
    pub body: String,
}

/// A reply as a mathematical value.
pub struct ReplyView {
    pub status: u16,
    pub json: bool,
    pub body: Seq<char>,
}

impl View for Reply {
    type V = ReplyView;

    open spec fn view(&self) -> ReplyView {
        ReplyView { status: self.status, json: self.json, body: self.body@ }
    }
}

/// The content type of a JSON document.
pub const JSON: &'static str = "application/json";

impl Reply {
    /// The content type to declare with this reply: [`JSON`] for a JSON
    /// document, none for plain text.
    pub fn content_type(&self) -> (declared: Option<&'static str>)
        ensures
            self.json ==> declared.is_some() && declared.unwrap()@ == JSON@,
            !self.json ==> declared.is_none(),
    {
        if self.json {
            Some(JSON)
        } else {
            None
        }
    }
}

/// A reply of plain text.
pub open spec fn text_reply(status: u16, body: Seq<char>) -> ReplyView {
    ReplyView { status, json: false, body }
}

/// A successful reply that carries a JSON document.
pub open spec fn json_reply(document: Seq<char>) -> ReplyView {
    ReplyView { status: STATUS_OK, json: true, body: document }
}

/// The reply to a request for all configurations: the listing as JSON, or,
/// where the store failed, `ERROR|` and what the store said.
pub fn get_webhooks(listing: Result<String, String>) -> (reply: Reply)
    ensures
        reply@ == match listing {
            Ok(document) => json_reply(document@),
            Err(error) => text_reply(STATUS_NOT_FOUND, "ERROR|"@ + error@),
        },
{
    match listing {
        Ok(document) => Reply { status: STATUS_OK, json: true, body: document },
        Err(error) => {
            let mut body = String::from_str("ERROR|");
            body.append(error.as_str());
            Reply { status: STATUS_NOT_FOUND, json: false, body }
        },
    }
}

/// The reply to a request for the configuration `id`: the configuration as
/// JSON, or, where the store has none, `ERROR|`, the id, and on a line of
/// its own what the store said.
pub fn get_webhook_details(id: &str, found: Result<String, String>) -> (reply: Reply)
    ensures
        reply@ == match found {
            Ok(document) => json_reply(document@),
            Err(error) => text_reply(STATUS_NOT_FOUND, "ERROR|"@ + id@ + "\n"@ + error@),
        },
{
    match found {
        Ok(document) => Reply { status: STATUS_OK, json: true, body: document },
        Err(error) => {
            let mut body = String::from_str("ERROR|");
            body.append(id);
            body.append("\n");
            body.append(error.as_str());
            Reply { status: STATUS_NOT_FOUND, json: false, body }
        },
    }
}

/// The reply to a payload submitted against the configuration `id`. A
/// payload is taken in only where the store knows the id.
pub fn send_delayed_webhook(id: &str, known: bool) -> (reply: Reply)
    ensures
        reply@ == if known {
            text_reply(STATUS_OK, "ADDED|"@ + id@)
        } else {
            text_reply(STATUS_NOT_FOUND, "ERROR|Invalid ID: "@ + id@)
        },
{
    if known {
        let mut body = String::from_str("ADDED|");
        body.append(id);
        Reply { status: STATUS_OK, json: false, body }
    } else {
        let mut body = String::from_str("ERROR|Invalid ID: ");
        body.append(id);
        Reply { status: STATUS_NOT_FOUND, json: false, body }
    }
}

/// The reply to a request to delete the configuration `id`.
pub fn delete_delayed_webhook(id: &str, outcome: Result<(), String>) -> (reply: Reply)
    ensures
        reply@ == match outcome {
            Ok(_) => text_reply(STATUS_OK, "DELETED|"@ + id@),
            Err(error) => text_reply(
                STATUS_INTERNAL_SERVER_ERROR,
                "ERROR|"@ + id@ + "\n"@ + error@,
            ),
        },
{
    match outcome {
        Ok(_) => {
            let mut body = String::from_str("DELETED|");
            body.append(id);
            Reply { status: STATUS_OK, json: false, body }
        },
        Err(error) => {
            let mut body = String::from_str("ERROR|");
            body.append(id);
            body.append("\n");
            body.append(error.as_str());
            Reply { status: STATUS_INTERNAL_SERVER_ERROR, json: false, body }
        },
    }
}

/// The reply to a request to create a configuration: `CREATED|` and the id
/// that the store gave it, or `ERROR|` and what the store said.
pub fn create_delayed_webhook(outcome: Result<String, String>) -> (reply: Reply)
    ensures
        reply@ == match outcome {
            Ok(id) => text_reply(STATUS_OK, "CREATED|"@ + id@),
            Err(error) => text_reply(STATUS_INTERNAL_SERVER_ERROR, "ERROR|"@ + error@),
        },
{
    match outcome {
        Ok(id) => {
            let mut body = String::from_str("CREATED|");
            body.append(id.as_str());
            Reply { status: STATUS_OK, json: false, body }
        },
        Err(error) => {
            let mut body = String::from_str("ERROR|");
            body.append(error.as_str());
            Reply { status: STATUS_INTERNAL_SERVER_ERROR, json: false, body }
        },
    }
}

/// The changes that a settings patch asks for. A field that is absent asks
/// for nothing.
#[derive(Debug, PartialEq, Eq)]
pub struct PatchWebhookSettings {
    pub delay: Option<i64>,
    pub name: Option<String>,
    pub remove_delayed: Option<Vec<String>>,
    pub append_delayed: Option<Vec<String>>,
    pub remove_instant: Option<Vec<String>>,
    pub append_instant: Option<Vec<String>>,
}

/// A list of endpoints that may be absent, as a mathematical value.
pub open spec fn endpoints_view(endpoints: Option<Vec<String>>) -> Option<Seq<Seq<char>>> {
    match endpoints {
        Some(urls) => Some(urls.deep_view()),
        None => None,
    }
}

/// A settings patch as a mathematical value.
pub struct PatchView {
    pub delay: Option<i64>,
    pub name: Option<Seq<char>>,
    pub remove_delayed: Option<Seq<Seq<char>>>,
    pub append_delayed: Option<Seq<Seq<char>>>,
    pub remove_instant: Option<Seq<Seq<char>>>,
    pub append_instant: Option<Seq<Seq<char>>>,
}

impl View for PatchWebhookSettings {
    type V = PatchView;

    open spec fn view(&self) -> PatchView {
        PatchView {
            delay: self.delay,
            name: match self.name {
                Some(name) => Some(name@),
                None => None,
            },
            remove_delayed: endpoints_view(self.remove_delayed),
            append_delayed: endpoints_view(self.append_delayed),
            remove_instant: endpoints_view(self.remove_instant),
            append_instant: endpoints_view(self.append_instant),
        }
    }
}

/// The four ways in which a patch edits an endpoint list.
#[derive(Clone, Copy, Debug, PartialEq, Eq, Structural)]
pub enum ListEdit {
    /// Take an endpoint out of the delayed group.
    RemoveDelayed,
    /// Add an endpoint at the end of the delayed group.
    AppendDelayed,
    /// Take an endpoint out of the instant group.
    RemoveInstant,
    /// Add an endpoint at the end of the instant group.
    AppendInstant,
}

/// One update of a stored configuration.
#[derive(Debug, PartialEq, Eq)]
pub enum StoreUpdate {
    /// Set the delay to this many seconds.
    DelaySeconds(i64),
    /// Set the name.
    Name(String),
    /// Edit one of the endpoint lists by one endpoint.
    Endpoint(ListEdit, String),
}

/// A store update as a mathematical value.
pub enum StoreUpdateView {
    DelaySeconds(i64),
    Name(Seq<char>),
    Endpoint(ListEdit, Seq<char>),
}

impl View for StoreUpdate {
    type V = StoreUpdateView;

    open spec fn view(&self) -> StoreUpdateView {
        match self {
            StoreUpdate::DelaySeconds(seconds) => StoreUpdateView::DelaySeconds(*seconds),
            StoreUpdate::Name(name) => StoreUpdateView::Name(name@),
            StoreUpdate::Endpoint(edit, url) => StoreUpdateView::Endpoint(*edit, url@),
        }
    }
}

/// The updates of a list, each as a mathematical value.
pub open spec fn updates_view(updates: Seq<StoreUpdate>) -> Seq<StoreUpdateView> {
    updates.map_values(|u: StoreUpdate| u@)
}

/// One edit of kind `edit` for every endpoint of `urls`, in their order;
/// none where the list is absent.
pub open spec fn endpoint_edits(edit: ListEdit, urls: Option<Seq<Seq<char>>>) -> Seq<StoreUpdateView> {
    match urls {
        Some(urls) => Seq::new(urls.len(), |k: int| StoreUpdateView::Endpoint(edit, urls[k])),
        None => Seq::empty(),
    }
}

/// The store updates that `patch` asks for, in the order in which they are
/// made: the delay, the name, then the endpoints to take out of and to add
/// to the delayed group, then those of the instant group.
pub open spec fn planned(patch: PatchView) -> Seq<StoreUpdateView> {
    (match patch.delay {
        Some(seconds) => seq![StoreUpdateView::DelaySeconds(seconds)],
        None => Seq::empty(),
    }) + (match patch.name {
        Some(name) => seq![StoreUpdateView::Name(name)],
        None => Seq::empty(),
    }) + endpoint_edits(ListEdit::RemoveDelayed, patch.remove_delayed) + endpoint_edits(
        ListEdit::AppendDelayed,
        patch.append_delayed,
    ) + endpoint_edits(ListEdit::RemoveInstant, patch.remove_instant) + endpoint_edits(
        ListEdit::AppendInstant,
        patch.append_instant,
    )
}

/// Appends to `plan` one edit of kind `edit` for every endpoint of `urls`.
fn push_edits(plan: &mut Vec<StoreUpdate>, edit: ListEdit, urls: &Option<Vec<String>>)
    ensures
        updates_view(final(plan)@) == updates_view(old(plan)@) + endpoint_edits(
            edit,
            endpoints_view(*urls),
        ),
{
    let ghost before = updates_view(plan@);
    match urls {
        Some(urls) => {
            let mut k: usize = 0;
            while k < urls.len()
                invariant
                    k <= urls.len(),
                    updates_view(plan@) == before + endpoint_edits(
                        edit,
                        Some(urls.deep_view().take(k as int)),
                    ),
                decreases urls.len() - k,
            {
                let update = StoreUpdate::Endpoint(edit, urls[k].clone());
                proof {
                    assert(updates_view(plan@.push(update)) == updates_view(plan@).push(update@));
                }
                plan.push(update);
                k += 1;
            }
        },
        None => {},
    }
}

/// The store updates that a settings patch asks for, in the order in which
/// they are to be made.
pub fn planned_updates(patch: &PatchWebhookSettings) -> (plan: Vec<StoreUpdate>)
    ensures
        updates_view(plan@) == planned(patch@),
{
    let mut plan: Vec<StoreUpdate> = Vec::new();
    match patch.delay {
        Some(seconds) => {
            plan.push(StoreUpdate::DelaySeconds(seconds));
        },
        None => {},
    }
    match &patch.name {
        Some(name) => {
            let update = StoreUpdate::Name(name.clone());
            plan.push(update);
        },
        None => {},
    }
    push_edits(&mut plan, ListEdit::RemoveDelayed, &patch.remove_delayed);
    push_edits(&mut plan, ListEdit::AppendDelayed, &patch.append_delayed);
    push_edits(&mut plan, ListEdit::RemoveInstant, &patch.remove_instant);
    push_edits(&mut plan, ListEdit::AppendInstant, &patch.append_instant);
    plan
}

/// What the store said of each update that failed, in the order of the
/// updates.
pub open spec fn failed_updates(outcomes: Seq<Result<(), String>>) -> Seq<Seq<char>>
    decreases outcomes.len(),
{
    if outcomes.len() == 0 {
        Seq::empty()
    } else {
        match outcomes.last() {
            Ok(_) => failed_updates(outcomes.drop_last()),
            Err(error) => failed_updates(outcomes.drop_last()).push(error@),
        }
    }
}

/// The texts of `errors`, each closed by a line break, one after another.
pub open spec fn error_lines(errors: Seq<Seq<char>>) -> Seq<char>
    decreases errors.len(),
{
    if errors.len() == 0 {
        Seq::empty()
    } else {
        error_lines(errors.drop_last()) + errors.last() + "\n"@
    }
}

/// The reply to a settings patch for the configuration `id`, given how each
/// of its updates went. Where all went well the reply is `PATCHED|` and the
/// id. Where any failed it is `ERROR|`, the id, and after a line break what
/// the store said of each failed update, one line each, in the order of the
/// updates; the updates that went well stay made.
pub fn update_delayed_webhook_settings(id: &str, outcomes: &Vec<Result<(), String>>) -> (reply: Reply)
    ensures
        reply@ == if failed_updates(outcomes@).len() > 0 {
            text_reply(
                STATUS_INTERNAL_SERVER_ERROR,
                "ERROR|"@ + id@ + "\n"@ + error_lines(failed_updates(outcomes@)),
            )
        } else {
            text_reply(STATUS_OK, "PATCHED|"@ + id@)
        },
{
    let mut output = String::new();
    let mut failures: usize = 0;
    let mut i: usize = 0;
    while i < outcomes.len()
        invariant
            i <= outcomes@.len(),
            failures == failed_updates(outcomes@.take(i as int)).len(),
            failures <= i,
            output@ == error_lines(failed_updates(outcomes@.take(i as int))),
        decreases outcomes@.len() - i,
    {
        proof {
            assert(outcomes@.take(i as int + 1).drop_last() == outcomes@.take(i as int));
        }
        match &outcomes[i] {
            Ok(_) => {},
            Err(error) => {
                let ghost so_far = failed_updates(outcomes@.take(i as int));
                proof {
                    assert(so_far.push(error@).drop_last() == so_far);
                }
                output.append(error.as_str());
                output.append("\n");
                failures += 1;
            },
        }
        i += 1;
    }
    proof {
        assert(outcomes@.take(i as int) == outcomes@);
    }
    if failures > 0 {
        let mut body = String::from_str("ERROR|");
        body.append(id);
        body.append("\n");
        body.append(output.as_str());
        Reply { status: STATUS_INTERNAL_SERVER_ERROR, json: false, body }
    } else {
        let mut body = String::from_str("PATCHED|");
        body.append(id);
        Reply { status: STATUS_OK, json: false, body }
    }
}

} // verus!
