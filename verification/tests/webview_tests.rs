use resident::webview::{
    content_type, count_event_script, on_event, resource_name, LoopCommand, LoopEvent, UserEvent,
};

#[test]
fn send_data_script() {
    let e = UserEvent::SendData("1".to_string());
    assert_eq!(e.script(), "console.log('1')");
    assert_eq!(
        on_event(&LoopEvent::User(e)),
        LoopCommand::Evaluate("console.log('1')".to_string())
    );
    assert_eq!(on_event(&LoopEvent::Started), LoopCommand::Announce);
    assert_eq!(on_event(&LoopEvent::CloseRequested), LoopCommand::Exit);
    assert_eq!(on_event(&LoopEvent::Other), LoopCommand::Wait);
}

#[test]
fn resources_and_types() {
    assert_eq!(resource_name("/resource/index.html"), "index.html");
    assert_eq!(resource_name("/resource/js/app.js"), "js/app.js");
    assert_eq!(content_type("index.html"), "text/html");
    assert_eq!(content_type("js/app.js"), "text/javascript");
    assert_eq!(content_type("style.css"), "text/css");
    assert_eq!(content_type("readme"), "text/plain");
}

#[test]
fn count_script_text() {
    assert_eq!(
        count_event_script(3),
        "var customEvent = new CustomEvent('customEvent', {\n  'detail': {\n    'count' : 3\n  }\n});\nwindow.dispatchEvent(customEvent);\n"
    );
}
