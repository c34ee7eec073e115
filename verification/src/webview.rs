//! The web-view programs: how their custom `wry://` protocol answers
//! resource requests, and what their event loops do.

use vstd::prelude::*;
use crate::text::{decimal, ends_with, is_suffix, trim_start, trim_start_matches, u64_to_string};

verus! {

/// An event that the program sends to its own event loop.
#[derive(Debug, Clone, PartialEq)]
pub enum UserEvent {
    /// Text to log in the page's console.
    SendData(String),
}

/// The script that logs `text` in the page's console.
pub open spec fn console_script(text: Seq<char>) -> Seq<char> {
    "console.log('"@ + text + "')"@
}

impl UserEvent {
    /// The script that the page evaluates for this event.
    pub fn script(&self) -> (s: String)
        ensures
            self matches UserEvent::SendData(e) && s@ == console_script(e@),
    {
        match self {
            UserEvent::SendData(e) => {
                let mut s = String::from_str("console.log('");
                s.append(e.as_str());
                s.append("')");
                s
            },
        }
    }
}

/// The name of the embedded resource that a request path asks for: the
/// path without its leading `/resource/` parts.
pub fn resource_name(path: &str) -> (name: &str)
    ensures
        name@ == trim_start(path@, "/resource/"@),
{
    trim_start_matches(path, "/resource/")
}

/// The content type for a resource, by its extension.
pub open spec fn content_type_of(name: Seq<char>) -> Seq<char> {
    if is_suffix(".js"@, name) {
        "text/javascript"@
    } else if is_suffix(".html"@, name) {
        "text/html"@
    } else if is_suffix(".css"@, name) {
        "text/css"@
    } else {
        "text/plain"@
    }
}

/// The last character of a text that ends with `p` is the last of `p`.
proof fn lemma_suffix_last(p: Seq<char>, name: Seq<char>)
    requires
        p.len() > 0,
        is_suffix(p, name),
    ensures
        name.len() > 0,
        name.last() == p.last(),
{
    assert(name.subrange(name.len() - p.len(), name.len() as int)[p.len() - 1] == name.last());
}

/// A resource's type follows its extension: `.js` is JavaScript, `.html`
/// HTML, `.css` CSS, and a name with none of these is plain text.
pub proof fn law_content_type_by_extension(name: Seq<char>)
    ensures
        is_suffix(".js"@, name) ==> content_type_of(name) == "text/javascript"@,
        is_suffix(".html"@, name) ==> content_type_of(name) == "text/html"@,
        is_suffix(".css"@, name) ==> content_type_of(name) == "text/css"@,
        !is_suffix(".js"@, name) && !is_suffix(".html"@, name) && !is_suffix(".css"@, name)
            ==> content_type_of(name) == "text/plain"@,
{
    reveal_strlit(".js");
    reveal_strlit(".html");
    reveal_strlit(".css");
    if is_suffix(".html"@, name) {
        lemma_suffix_last(".html"@, name);
        if is_suffix(".js"@, name) {
            lemma_suffix_last(".js"@, name);
        }
    }
    if is_suffix(".css"@, name) {
        lemma_suffix_last(".css"@, name);
        if is_suffix(".html"@, name) {
            lemma_suffix_last(".html"@, name);
        }
        if is_suffix(".js"@, name) {
            let n = name.len();
            assert(name.subrange(n - 3, n as int) == ".js"@);
            assert(name.subrange(n - 4, n as int) == ".css"@);
            assert(name[n - 2] == name.subrange(n - 3, n as int)[1]);
            assert(name[n - 2] == name.subrange(n - 4, n as int)[2]);
        }
    }
}

/// The `Content-Type` header of a resource: JavaScript, HTML or CSS by its
/// extension, plain text otherwise.
pub fn content_type(name: &str) -> (t: &'static str)
    ensures
        t@ == content_type_of(name@),
{
    if ends_with(name, ".js") {
        "text/javascript"
    } else if ends_with(name, ".html") {
        "text/html"
    } else if ends_with(name, ".css") {
        "text/css"
    } else {
        "text/plain"
    }
}

/// What the event loop reads of an event.
#[derive(Debug, Clone, PartialEq)]
pub enum LoopEvent {
    /// The loop has started.
    Started,
    /// An event the program sent to itself.
    User(UserEvent),
    /// The window's close button was pressed.
    CloseRequested,
    /// Anything else.
    Other,
}

/// What the event loop does next.
#[derive(Debug, Clone, PartialEq)]
pub enum LoopCommand {
    /// Print `Wry has started!` and wait.
    Announce,
    /// Evaluate this script in the page and wait.
    Evaluate(String),
    /// Leave the loop.
    Exit,
    /// Wait for the next event.
    Wait,
}

/// The event loop's step: it waits after every event but a close request.
pub fn on_event(event: &LoopEvent) -> (c: LoopCommand)
    ensures
        match event {
            LoopEvent::Started => c is Announce,
            LoopEvent::User(UserEvent::SendData(e)) => c matches LoopCommand::Evaluate(s) && s@
                == console_script(e@),
            LoopEvent::CloseRequested => c is Exit,
            LoopEvent::Other => c is Wait,
        },
{
    match event {
        LoopEvent::Started => LoopCommand::Announce,
        LoopEvent::User(u) => LoopCommand::Evaluate(u.script()),
        LoopEvent::CloseRequested => LoopCommand::Exit,
        LoopEvent::Other => LoopCommand::Wait,
    }
}

/// The script that tells the page the current count, by dispatching a
/// `customEvent` whose detail holds it.
pub open spec fn count_script(count: u64) -> Seq<char> {
    "var customEvent = new CustomEvent('customEvent', {\n  'detail': {\n    'count' : "@ + decimal(
        count as nat,
    ) + "\n  }\n});\nwindow.dispatchEvent(customEvent);\n"@
}

/// The script that the IPC handler runs after each message.
pub fn count_event_script(count: u64) -> (s: String)
    ensures
        s@ == count_script(count),
{
    let mut s = String::from_str("var customEvent = new CustomEvent('customEvent', {\n  'detail': {\n    'count' : ");
    let n = u64_to_string(count);
    s.append(n.as_str());
    s.append("\n  }\n});\nwindow.dispatchEvent(customEvent);\n");
    s
}

} // verus!
