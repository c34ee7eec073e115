//! The Windows tray program with an HTTP server: a shared counter with a
//! busy flag, the replies of its server, and the steps of its "Add" job.

use vstd::prelude::*;
use crate::json::{Json, JsonValue, member_models, lemma_member_models, item_models, lemma_item_models};
use crate::text::{decimal, u64_to_string};

verus! {

/// The state shared by the server and the tray menu.
#[derive(Debug, Clone, PartialEq)]
pub struct UserData {
    pub busy: bool,
    pub count: u32,
}

/// `true` or `false`.
pub open spec fn bool_text(b: bool) -> Seq<char> {
    if b { "true"@ } else { "false"@ }
}

/// The debug rendering of the state, `UserData { busy: .., count: .. }`.
pub open spec fn user_data_text(d: UserData) -> Seq<char> {
    "UserData { busy: "@ + bool_text(d.busy) + ", count: "@ + decimal(d.count as nat) + " }"@
}

/// The reply to `GET /`, and whether to start the external script.
#[derive(Debug, Clone, PartialEq)]
pub struct CallReply {
    pub start_script: bool,
    pub body: String,
}

/// The state when a job starts.
pub open spec fn begun(d: UserData) -> UserData {
    UserData { busy: true, ..d }
}

/// The state after one step of a job.
pub open spec fn ticked(d: UserData) -> UserData {
    UserData { count: (d.count + 1) as u32, ..d }
}

/// The state after `n` steps of a job.
pub open spec fn ticked_n(d: UserData, n: nat) -> UserData
    decreases n,
{
    if n == 0 {
        d
    } else {
        ticked(ticked_n(d, (n - 1) as nat))
    }
}

/// The state after a request `GET /`: one more call counted.
pub open spec fn called(d: UserData) -> UserData {
    UserData { count: (d.count + 1) as u32, ..d }
}

/// The body of the reply to `GET /` in state `d`: `Busy` while a job runs,
/// else a greeting with the state after the request.
pub open spec fn call_body(d: UserData) -> Seq<char> {
    if d.busy {
        "Busy"@
    } else {
        "Hello, world! "@ + user_data_text(called(d))
    }
}

/// The state after the "Add" job and the server have taken turns: each
/// entry of `events` is a step of the job (`true`) or a request `GET /`
/// (`false`), in the order they took the shared state's lock.
pub open spec fn run_beside(d: UserData, events: Seq<bool>) -> UserData
    decreases events.len(),
{
    if events.len() == 0 {
        d
    } else {
        let prev = run_beside(d, events.drop_last());
        if events.last() {
            ticked(prev)
        } else {
            called(prev)
        }
    }
}

/// The state when a job ends.
pub open spec fn ended(d: UserData) -> UserData {
    UserData { busy: false, ..d }
}

/// The number of steps of the "Add" job.
pub open spec fn add_steps() -> nat {
    10
}

impl UserData {
    /// The state at start: idle, count zero.
    pub fn new() -> (d: UserData)
        ensures
            !d.busy,
            d.count == 0,
    {
        UserData { busy: false, count: 0 }
    }

    /// The debug rendering of the state.
    pub fn debug_text(&self) -> (s: String)
        ensures
            s@ == user_data_text(*self),
    {
        let mut s = String::from_str("UserData { busy: ");
        if self.busy {
            s.append("true");
        } else {
            s.append("false");
        }
        s.append(", count: ");
        let n = u64_to_string(self.count as u64);
        s.append(n.as_str());
        s.append(" }");
        s
    }

    /// Serves `GET /`: counts the request; while a job runs the reply is
    /// `Busy`, otherwise the external script is to be started and the reply
    /// greets with the state.
    pub fn call(&mut self) -> (r: CallReply)
        requires
            old(self).count < u32::MAX,
        ensures
            *final(self) == called(*old(self)),
            final(self).count == old(self).count + 1,
            final(self).busy == old(self).busy,
            r.start_script == !old(self).busy,
            r.body@ == call_body(*old(self)),
            old(self).busy ==> r.body@ == "Busy"@,
            !old(self).busy ==> r.body@ == "Hello, world! "@ + user_data_text(*final(self)),
    {
        self.count = self.count + 1;
        if self.busy {
            return CallReply { start_script: false, body: String::from_str("Busy") };
        }
        let mut body = String::from_str("Hello, world! ");
        let d = self.debug_text();
        body.append(d.as_str());
        CallReply { start_script: true, body }
    }

    /// Starts the "Add" job: the state becomes busy.
    pub fn begin_add(&mut self)
        ensures
            *final(self) == begun(*old(self)),
    {
        self.busy = true;
    }

    /// One step of the "Add" job: the count goes up by one; returns the
    /// line the job prints.
    pub fn add_step(&mut self) -> (line: String)
        requires
            old(self).count < u32::MAX,
        ensures
            *final(self) == ticked(*old(self)),
            line@ == "count up : "@ + user_data_text(*final(self)),
    {
        self.count = self.count + 1;
        let mut line = String::from_str("count up : ");
        let d = self.debug_text();
        line.append(d.as_str());
        line
    }

    /// Ends the "Add" job: the state is idle again.
    pub fn end_add(&mut self)
        ensures
            *final(self) == ended(*old(self)),
    {
        self.busy = false;
    }
}

/// The reply to `GET /get`: `[{"link": "123"}, {"link": "456"}]`.
pub fn links() -> (r: JsonValue)
    ensures
        r.model() == Json::Array(
            seq![
                Json::Object(seq![("link"@, Json::Str("123"@))]),
                Json::Object(seq![("link"@, Json::Str("456"@))]),
            ],
        ),
{
    let mut first: Vec<(String, JsonValue)> = Vec::new();
    first.push((String::from_str("link"), JsonValue::Str(String::from_str("123"))));
    let mut second: Vec<(String, JsonValue)> = Vec::new();
    second.push((String::from_str("link"), JsonValue::Str(String::from_str("456"))));
    proof {
        lemma_member_models(first@);
        lemma_member_models(second@);
        assert(member_models(first@) =~= seq![("link"@, Json::Str("123"@))]);
        assert(member_models(second@) =~= seq![("link"@, Json::Str("456"@))]);
    }
    let mut items: Vec<JsonValue> = Vec::new();
    items.push(JsonValue::Object(first));
    items.push(JsonValue::Object(second));
    proof {
        lemma_item_models(items@);
        assert(item_models(items@) =~= seq![
            Json::Object(seq![("link"@, Json::Str("123"@))]),
            Json::Object(seq![("link"@, Json::Str("456"@))]),
        ]);
    }
    JsonValue::Array(items)
}

/// The PowerShell arguments that `POST /post` runs the script with:
/// `Start-Process -FilePath dotnet -ArgumentList 'script script.csx <data>'`.
pub fn post_arguments(data: &str) -> (args: Vec<String>)
    ensures
        args@.len() == 5,
        args@[0]@ == "Start-Process"@,
        args@[1]@ == "-FilePath"@,
        args@[2]@ == "dotnet"@,
        args@[3]@ == "-ArgumentList"@,
        args@[4]@ == "'script script.csx "@ + data@ + "'"@,
{
    let mut last = String::from_str("'script script.csx ");
    last.append(data);
    last.append("'");
    let mut args: Vec<String> = Vec::new();
    args.push(String::from_str("Start-Process"));
    args.push(String::from_str("-FilePath"));
    args.push(String::from_str("dotnet"));
    args.push(String::from_str("-ArgumentList"));
    args.push(last);
    args
}

/// While the "Add" job runs, `GET /` never starts the script: a request
/// that finds the state busy is answered `Busy`, and the state stays busy
/// through every step of the job.
pub proof fn law_busy_through_job(d: UserData, n: nat)
    ensures
        ticked_n(begun(d), n).busy,
    decreases n,
{
    if n > 0 {
        law_busy_through_job(d, (n - 1) as nat);
    }
}

/// While the "Add" job runs, requests to `GET /` may come between its
/// steps: whatever their order, the state stays busy, every request is
/// answered `Busy` and starts no script, each step and each request raises
/// the count by exactly one, and only the job's end makes the state idle.
pub proof fn law_busy_beside_requests(d: UserData, events: Seq<bool>)
    requires
        d.count + events.len() <= u32::MAX,
    ensures
        run_beside(begun(d), events).busy,
        call_body(run_beside(begun(d), events)) == "Busy"@,
        run_beside(begun(d), events).count == d.count + events.len(),
        !ended(run_beside(begun(d), events)).busy,
    decreases events.len(),
{
    if events.len() > 0 {
        law_busy_beside_requests(d, events.drop_last());
    }
}

/// A whole "Add" job (start, ten steps, end) leaves the state idle with the
/// count ten higher.
pub proof fn law_add_job(d: UserData)
    requires
        d.count + add_steps() <= u32::MAX,
    ensures
        ended(ticked_n(begun(d), add_steps())) == (UserData { busy: false, count: (d.count + 10) as u32 }),
{
    reveal_with_fuel(ticked_n, 11);
}

/// The "Add" job in progress: how many of its steps are left.
#[derive(Debug, Clone, PartialEq)]
pub struct AddJob {
    pub remaining: u32,
}

impl AddJob {
    /// Starts the job on `data`: the state becomes busy and all ten steps
    /// are left.
    pub fn start(data: &mut UserData) -> (job: AddJob)
        ensures
            *final(data) == begun(*old(data)),
            job.remaining == add_steps(),
    {
        data.begin_add();
        AddJob { remaining: 10 }
    }

    /// Whether a step is left; the job waits a second before each.
    pub fn pending(&self) -> (r: bool)
        ensures
            r == (self.remaining > 0),
    {
        self.remaining > 0
    }

    /// Takes one step on `data`: the count goes up by one; returns the
    /// line the job prints.
    pub fn step(&mut self, data: &mut UserData) -> (line: String)
        requires
            old(self).remaining > 0,
            old(data).count < u32::MAX,
        ensures
            final(self).remaining == old(self).remaining - 1,
            *final(data) == ticked(*old(data)),
            line@ == "count up : "@ + user_data_text(*final(data)),
    {
        self.remaining = self.remaining - 1;
        data.add_step()
    }

    /// Ends the job: the state is idle again.
    pub fn finish(&self, data: &mut UserData)
        requires
            self.remaining == 0,
        ensures
            *final(data) == ended(*old(data)),
    {
        data.end_add();
    }
}

} // verus!
