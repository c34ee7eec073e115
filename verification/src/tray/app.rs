//! The tray program's event handling: for each event, what the program
//! does next and how its state changes.

use vstd::prelude::*;
use crate::tray::action::{Action, TrayEvent};
use crate::tray::worker::{RunPlan, Worker, plan_for, started, ended};

verus! {

/// The state that the event loop keeps between events.
#[derive(Debug, Clone, PartialEq)]
pub struct Application {
    /// Whether the console window is shown.
    pub console_visible: bool,
    /// Whether the tray icon has been created.
    pub has_tray_icon: bool,
    /// The background worker.
    pub worker: Worker,
}

/// What the event loop does in answer to an event.
#[derive(Debug, Clone, PartialEq)]
pub enum Command {
    /// Nothing to do.
    Nothing,
    /// Open the browser at this address.
    OpenBrowser(String),
    /// Call `set_console` with this flag (`true` hides the console).
    SetConsole(bool),
    /// Replace the tray icon by the busy (`true`) or idle (`false`) icon.
    SetIcon(bool),
    /// Answer a sleep request: run a sleep job of `time` seconds as `run`
    /// plans it, or no job (`None`), then send `reply` (a job that blocks the
    /// loop has finished by then).
    Sleep { run: Option<RunPlan>, time: u64, reply: String },
    /// Leave the event loop.
    Exit,
    /// Report an event that the loop does not handle.
    ReportUnknown,
}

/// The text that the event loop sends back for a sleep request.
pub open spec fn sleep_reply_text(busy: bool, secs: u64) -> Seq<char> {
    if busy {
        "sleep process : isBusy"@
    } else if secs > 3 {
        "sleep process : started None"@
    } else {
        "sleep process : started Some(\"finished\")"@
    }
}

/// The state after an event: `ToggleConsole` flips the console's
/// visibility; a sleep request that finds the worker idle starts a job,
/// in the background when it lasts more than three seconds.
pub open spec fn after(app: Application, event: Action) -> Application {
    match event {
        Action::ToggleConsole => Application { console_visible: !app.console_visible, ..app },
        Action::Sleep(secs) => if app.worker.running {
            app
        } else {
            Application { worker: started(app.worker, secs > 3), ..app }
        },
        _ => app,
    }
}

impl Application {
    /// The state at start: console shown, no tray icon yet, worker idle.
    pub fn new() -> (app: Application)
        ensures
            app.console_visible,
            !app.has_tray_icon,
            !app.worker.running,
    {
        Application { console_visible: true, has_tray_icon: false, worker: Worker::new() }
    }

    /// Handles the start of a new batch of events: on the first one
    /// (`init`), the tray icon is to be created.  Returns whether to create
    /// it now.
    pub fn new_events(&mut self, init: bool) -> (create: bool)
        ensures
            create == init,
            final(self).console_visible == old(self).console_visible,
            final(self).has_tray_icon == (old(self).has_tray_icon || init),
            final(self).worker == old(self).worker,
    {
        if init {
            self.has_tray_icon = true;
        }
        init
    }

    /// Decides what to do for `event`, given the configured host address.
    pub fn user_event(&mut self, event: Action, host: &str) -> (r: Command)
        ensures
            *final(self) == after(*old(self), event),
            match event {
                Action::TrayIconEvent(TrayEvent::DoubleClick) => r matches Command::OpenBrowser(url)
                    && url@ == "http://"@ + host@,
                Action::TrayIconEvent(_) => r is Nothing,
                Action::ToggleConsole => r == Command::SetConsole(old(self).console_visible),
                Action::Notification => r == notification(*old(self)),
                Action::Sleep(secs) => r matches Command::Sleep { run, time, reply } && time == secs
                    && run == (if old(self).worker.running {
                    None
                } else {
                    Some(plan_for(secs > 3))
                }) && reply@ == sleep_reply_text(old(self).worker.running, secs),
                Action::Quit => r is Exit,
                _ => r is ReportUnknown,
            },
    {
        match event {
            Action::TrayIconEvent(TrayEvent::Click) => Command::Nothing,
            Action::TrayIconEvent(TrayEvent::DoubleClick) => {
                let mut url = String::from_str("http://");
                url.append(host);
                Command::OpenBrowser(url)
            },
            Action::TrayIconEvent(TrayEvent::Other) => Command::Nothing,
            Action::ToggleConsole => {
                let shown = self.console_visible;
                self.console_visible = !shown;
                Command::SetConsole(shown)
            },
            Action::Notification => self.notify(),
            Action::Sleep(secs) => {
                if self.worker.is_busy() {
                    Command::Sleep {
                        run: None,
                        time: secs,
                        reply: String::from_str("sleep process : isBusy"),
                    }
                } else if secs > 3 {
                    let plan = self.worker.start(true);
                    Command::Sleep {
                        run: Some(plan),
                        time: secs,
                        reply: String::from_str("sleep process : started None"),
                    }
                } else {
                    let plan = self.worker.start(false);
                    Command::Sleep {
                        run: Some(plan),
                        time: secs,
                        reply: String::from_str("sleep process : started Some(\"finished\")"),
                    }
                }
            },
            Action::Quit => Command::Exit,
            _ => Command::ReportUnknown,
        }
    }

    /// The answer to a `Notification`: show the icon that says whether the
    /// worker is busy, once the tray icon exists.
    fn notify(&self) -> (r: Command)
        ensures
            r == notification(*self),
    {
        if self.has_tray_icon {
            Command::SetIcon(self.worker.is_busy())
        } else {
            Command::Nothing
        }
    }

    /// The worker's background job has ended: the worker is idle again and
    /// the loop is notified, which shows the idle icon.
    pub fn job_ended(&mut self) -> (r: Command)
        ensures
            *final(self) == (Application { worker: ended(old(self).worker), ..*old(self) }),
            r == notification(*final(self)),
    {
        let notify = self.worker.job_ended();
        if notify {
            self.notify()
        } else {
            Command::Nothing
        }
    }
}

/// The answer to a `Notification`: the busy or idle icon, once the tray
/// icon exists.
pub open spec fn notification(app: Application) -> Command {
    if app.has_tray_icon {
        Command::SetIcon(app.worker.running)
    } else {
        Command::Nothing
    }
}

/// Toggling the console twice restores its visibility, and the two
/// `set_console` calls get opposite flags.
pub proof fn law_toggle_console_twice(app: Application)
    ensures
        after(after(app, Action::ToggleConsole), Action::ToggleConsole) == app,
        after(app, Action::ToggleConsole).console_visible != app.console_visible,
{
}

/// No event but `ToggleConsole` and a sleep request changes the state, and
/// a sleep request changes only the worker.
pub proof fn law_only_toggle_and_sleep_change_state(app: Application, event: Action)
    ensures
        !(event is ToggleConsole) && !(event is Sleep) ==> after(app, event) == app,
        event is Sleep ==> after(app, event).console_visible == app.console_visible
            && after(app, event).has_tray_icon == app.has_tray_icon,
{
}

/// A sleep request that finds the worker idle and lasts more than three
/// seconds starts a background job: the worker is busy until the job ends,
/// the loop is notified at its start and at its end, and the icon shown
/// after the end is the idle one.  A shorter request blocks the loop and
/// leaves the worker idle, with no notification.
pub proof fn law_sleep_request_worker(app: Application, secs: u64)
    requires
        !app.worker.running,
        app.has_tray_icon,
    ensures
        secs > 3 ==> after(app, Action::Sleep(secs)).worker.running,
        secs > 3 ==> plan_for(secs > 3).notify_at_start && plan_for(secs > 3).notify_at_end,
        secs > 3 ==> notification(after(app, Action::Sleep(secs))) == Command::SetIcon(true),
        secs > 3 ==> notification(
            Application { worker: ended(after(app, Action::Sleep(secs)).worker), ..after(app, Action::Sleep(secs)) },
        ) == Command::SetIcon(false),
        secs <= 3 ==> !after(app, Action::Sleep(secs)).worker.running,
        secs <= 3 ==> !plan_for(secs > 3).notify_at_start && !plan_for(secs > 3).notify_at_end,
{
}

/// The reply to a sleep request that finds the worker idle says how the job
/// ran: `started None` exactly when it runs in the background (more than
/// three seconds), and `started Some("finished")` exactly when it blocks
/// the loop until it has finished.
pub proof fn law_sleep_reply_tells_plan(secs: u64)
    ensures
        plan_for(secs > 3).background ==> sleep_reply_text(false, secs) == "sleep process : started None"@,
        !plan_for(secs > 3).background ==> sleep_reply_text(false, secs)
            == "sleep process : started Some(\"finished\")"@,
        plan_for(secs > 3).background <==> secs > 3,
        secs <= 3 ==> sleep_reply_text(false, secs) == "sleep process : started Some(\"finished\")"@,
        secs > 3 ==> sleep_reply_text(false, secs) == "sleep process : started None"@,
{
}

/// A sleep request that arrives while the worker is busy starts no job and
/// is answered `isBusy`; otherwise a job starts, in the background exactly
/// when it lasts more than three seconds.
pub proof fn law_sleep_while_busy(secs: u64)
    ensures
        sleep_reply_text(true, secs) == "sleep process : isBusy"@,
        sleep_reply_text(false, secs) != "sleep process : isBusy"@,
{
    reveal_strlit("sleep process : isBusy");
    reveal_strlit("sleep process : started None");
    reveal_strlit("sleep process : started Some(\"finished\")");
    assert("sleep process : isBusy"@.len() != "sleep process : started None"@.len());
    assert("sleep process : isBusy"@.len() != "sleep process : started Some(\"finished\")"@.len());
}

} // verus!
