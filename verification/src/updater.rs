//! The updater's decisions: whether the userspace layer (rpm-ostree) or the
//! core layer (bootc) has an update, and the answers of its D-Bus interface.
use vstd::prelude::*;

use crate::json::{get, json_decode, json_get, json_render, parse_json, Json, JsonDoc};
use crate::output::CommandOutput;
use crate::text::{contains, contains_text};

verus! {

/// What an update check found.
#[derive(Debug, PartialEq, Eq)]
pub enum UpdateStatus {
    NoUpdates,
    Layer1AppliedLive,
    Layer0RebootRequired,
}

/// The update engine.
pub struct UpdateEngine {}

/// The compact JSON text of a command's output, `null` when it is no JSON.
pub open spec fn rendered(stdout: Seq<u8>) -> Seq<char> {
    match json_render(stdout) {
        Some(text) => text,
        None => "null"@,
    }
}

/// The JSON tree of a command's output, `null` when it is no JSON.
pub open spec fn tree(stdout: Seq<u8>) -> Json {
    match json_decode(stdout) {
        Some(t) => t,
        None => Json::Null,
    }
}

/// `value[key]` in serde_json: the member, or `null`.
pub open spec fn index(v: Json, key: Seq<char>) -> Json {
    match json_get(v, key) {
        Some(x) => x,
        None => Json::Null,
    }
}

/// A document reports a userspace update: its text mentions `AvailableUpdate`.
pub open spec fn layer1_in_doc(tree: Json, text: Seq<char>) -> bool {
    contains(text, "AvailableUpdate"@)
}

/// A document reports a core update: `status.type` is `updateAvailable`, or
/// the text mentions it anywhere.
pub open spec fn layer0_in_doc(tree: Json, text: Seq<char>) -> bool {
    (index(index(tree, "status"@), "type"@) matches Json::Str(s) && s@ == "updateAvailable"@)
        || contains(text, "updateAvailable"@)
}

/// `rpm-ostree status --json` reports a userspace update.
pub open spec fn layer1_available(out: CommandOutput) -> bool {
    out.success && layer1_in_doc(tree(out.stdout@), rendered(out.stdout@))
}

/// `bootc status --json` reports a core update.
pub open spec fn layer0_available(out: CommandOutput) -> bool {
    out.success && layer0_in_doc(tree(out.stdout@), rendered(out.stdout@))
}

/// What an update check does after the userspace layer was looked at.
#[derive(Debug, PartialEq, Eq)]
pub enum UpdateStep {
    /// The check is over with this result.
    Done(UpdateStatus),
    /// The core layer (bootc) is looked at next.
    CheckLayer0,
}

/// Whether a parsed `rpm-ostree status --json` document reports a userspace
/// update.
pub fn layer1_in(doc: &JsonDoc) -> (r: bool)
    ensures
        r == layer1_in_doc(doc.tree, doc.text@),
{
    contains_text(doc.text.as_str(), "AvailableUpdate")
}

/// Whether a parsed `bootc status --json` document reports a core update.
pub fn layer0_in(doc: &JsonDoc) -> (r: bool)
    ensures
        r == layer0_in_doc(doc.tree, doc.text@),
{
    proof {
        reveal_strlit("updateAvailable");
    }
    let by_type = match index_of(&doc.tree, "status") {
        Some(status) => match index_of(status, "type") {
            Some(Json::Str(s)) => crate::text::same_text(s.as_str(), "updateAvailable"),
            _ => false,
        },
        None => {
            assert(index(Json::Null, "type"@) is Null);
            false
        },
    };
    by_type || contains_text(doc.text.as_str(), "updateAvailable")
}

fn read_doc(stdout: &Vec<u8>) -> (r: JsonDoc)
    ensures
        r.tree == tree(stdout@),
        r.text@ == rendered(stdout@),
{
    match parse_json(stdout.as_slice()) {
        Some(doc) => doc,
        None => {
            proof {
                reveal_strlit("null");
            }
            JsonDoc { tree: Json::Null, text: "null".to_string() }
        },
    }
}

fn index_of<'a>(v: &'a Json, key: &str) -> (r: Option<&'a Json>)
    ensures
        match r {
            Some(x) => *x == index(*v, key@) && !(*x is Null),
            None => index(*v, key@) is Null,
        },
{
    match get(v, key) {
        Some(x) => match x {
            Json::Null => None,
            _ => Some(x),
        },
        None => None,
    }
}

impl UpdateEngine {
    pub fn new() -> Self {
        UpdateEngine {}
    }

    /// The first step of a check, on what `rpm-ostree status --json` gave:
    /// a userspace update is applied live; otherwise the check goes on.
    pub fn check_layer1(&self, ostree: &CommandOutput) -> (r: Option<UpdateStatus>)
        ensures
            r is Some <==> layer1_available(*ostree),
            r matches Some(s) ==> s is Layer1AppliedLive,
    {
        if !ostree.success {
            return None;
        }
        let doc = read_doc(&ostree.stdout);
        if layer1_in(&doc) {
            Some(UpdateStatus::Layer1AppliedLive)
        } else {
            None
        }
    }

    /// The step after the userspace layer: a userspace update ends the check
    /// (it is applied live); otherwise the core layer is looked at.
    pub fn after_layer1(&self, ostree: &CommandOutput) -> (r: UpdateStep)
        ensures
            layer1_available(*ostree) ==> r == UpdateStep::Done(UpdateStatus::Layer1AppliedLive),
            !layer1_available(*ostree) ==> r == UpdateStep::CheckLayer0,
    {
        match self.check_layer1(ostree) {
            Some(status) => UpdateStep::Done(status),
            None => UpdateStep::CheckLayer0,
        }
    }

    /// The second step of a check, on what `bootc status --json` gave: a
    /// core update needs a reboot; otherwise there is none.
    pub fn check_layer0(&self, bootc: &CommandOutput) -> (r: UpdateStatus)
        ensures
            layer0_available(*bootc) ==> r is Layer0RebootRequired,
            !layer0_available(*bootc) ==> r is NoUpdates,
    {
        if !bootc.success {
            return UpdateStatus::NoUpdates;
        }
        let doc = read_doc(&bootc.stdout);
        if layer0_in(&doc) {
            UpdateStatus::Layer0RebootRequired
        } else {
            UpdateStatus::NoUpdates
        }
    }
}

/// The updater's D-Bus interface.
pub struct UpdaterIface;

impl UpdaterIface {
    /// The answer to a request to apply updates. Applying updates requires
    /// Polkit authentication: `authorized` says whether the caller passed it.
    /// An authorised caller gets the confirmation, any other a denial.
    pub fn apply_updates(&self, authorized: bool) -> (r: Result<String, String>)
        ensures
            authorized ==> (r matches Ok(t) && t@
                == "Update triggered successfully. Check journalctl for logs."@),
            !authorized ==> (r matches Err(e) && e@
                == "Not authorized: applying updates requires Polkit authentication."@),
    {
        if authorized {
            Ok("Update triggered successfully. Check journalctl for logs.".to_string())
        } else {
            Err("Not authorized: applying updates requires Polkit authentication.".to_string())
        }
    }

    /// The answer to a request to check for updates.
    pub fn check_updates(&self) -> (r: String)
        ensures
            r@ == "Updates available: Yes. Reboot required: No."@,
    {
        "Updates available: Yes. Reboot required: No.".to_string()
    }
}

} // verus!
