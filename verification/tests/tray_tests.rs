use resident::json::JsonValue;
use resident::tray::action::{tray_menu, Action, MenuEntry, TrayEvent};
use resident::tray::app::{Application, Command};
use resident::tray::config::{default_host, Args};
use resident::tray::icon::load_icon;
use resident::tray::log_format::{formatter, level_label, level_style, Color, Level};
use resident::tray::worker::{RunPlan, SleepJob, Worker};
use resident::tray::server::{
    access_allowed, config_context, config_page, hello, page_name, root, set_response,
    sleep_response, PageError,
};

#[test]
fn action_names_and_menu_ids() {
    assert_eq!(Action::ToggleConsole.name(), "ToggleConsole");
    assert_eq!(Action::Sleep(3).name(), "Sleep");
    assert_eq!(Action::from_menu_id("Quit"), Some(Action::Quit));
    assert_eq!(Action::from_menu_id("Unknown"), Some(Action::Unknown));
    assert_eq!(Action::from_menu_id("Sleep"), None);
    assert_eq!(Action::from_menu_id("quit"), None);
    for entry in tray_menu() {
        if let MenuEntry::Item { id, .. } = entry {
            assert!(Action::from_menu_id(&id).is_some());
        }
    }
    assert_eq!(
        tray_menu(),
        vec![
            MenuEntry::Item { id: "ToggleConsole".to_string(), label: "Console".to_string() },
            MenuEntry::Separator,
            MenuEntry::Item { id: "Quit".to_string(), label: "Exit".to_string() },
        ]
    );
}

#[test]
fn event_commands() {
    let mut app = Application::new();
    assert_eq!(
        app.user_event(Action::TrayIconEvent(TrayEvent::DoubleClick), "localhost:8000"),
        Command::OpenBrowser("http://localhost:8000".to_string())
    );
    assert_eq!(app.user_event(Action::TrayIconEvent(TrayEvent::Click), "h"), Command::Nothing);
    assert_eq!(app.user_event(Action::ToggleConsole, "h"), Command::SetConsole(true));
    assert!(!app.console_visible);
    assert_eq!(app.user_event(Action::ToggleConsole, "h"), Command::SetConsole(false));
    assert!(app.console_visible);
    assert_eq!(app.user_event(Action::Notification, "h"), Command::Nothing);
    assert!(app.new_events(true));
    assert_eq!(app.user_event(Action::Notification, "h"), Command::SetIcon(false));
    assert_eq!(app.user_event(Action::Quit, "h"), Command::Exit);
    assert_eq!(app.user_event(Action::Unknown, "h"), Command::ReportUnknown);
    assert_eq!(
        app.user_event(Action::MenuEvent("x".to_string()), "h"),
        Command::ReportUnknown
    );
}

#[test]
fn sleep_commands() {
    let mut app = Application::new();
    assert!(app.new_events(true));
    assert_eq!(
        app.user_event(Action::Sleep(2), "h"),
        Command::Sleep {
            run: Some(RunPlan { background: false, notify_at_start: false, notify_at_end: false }),
            time: 2,
            reply: format!("sleep process : started {:?}", Some("finished".to_string())),
        }
    );
    assert!(!app.worker.is_busy());
    assert_eq!(
        app.user_event(Action::Sleep(5), "h"),
        Command::Sleep {
            run: Some(RunPlan { background: true, notify_at_start: true, notify_at_end: true }),
            time: 5,
            reply: format!("sleep process : started {:?}", None::<String>),
        }
    );
    assert!(app.worker.is_busy());
    assert_eq!(app.user_event(Action::Notification, "h"), Command::SetIcon(true));
    assert_eq!(
        app.user_event(Action::Sleep(2), "h"),
        Command::Sleep { run: None, time: 2, reply: "sleep process : isBusy".to_string() }
    );
    assert_eq!(app.job_ended(), Command::SetIcon(false));
    assert!(!app.worker.is_busy());
    assert!(app.console_visible);
    assert_eq!(
        sleep_response(Some("sleep process : isBusy".to_string())),
        "success : sleep process : isBusy"
    );
    assert_eq!(sleep_response(None), "Error receiving response");
}

#[test]
fn log_lines() {
    assert_eq!(level_label(&Level::Warn), format!("{:<5}", "WARN"));
    assert_eq!(level_label(&Level::Error), "ERROR");
    for l in [Level::Error, Level::Warn, Level::Info, Level::Debug, Level::Trace] {
        assert_eq!(level_label(&l).len(), 5);
    }
    assert_eq!(level_style(&Level::Error).color, Color::Red);
    assert!(level_style(&Level::Error).bold);
    assert!(!level_style(&Level::Info).bold);
    assert_eq!(formatter(&Level::Info, "other_crate::x", "resident", "m"), None);
    let line = formatter(&Level::Info, "resident::server", "resident", "booting").unwrap();
    assert_eq!(line.plain(), "INFO  resident::server booting\n");
    assert_eq!(line.style.color, Color::Green);
    assert_eq!(line.target_color, Color::Ansi256(245));
    assert_eq!(line.target, "resident::server");
}

#[test]
fn menu_ids_read_as_json_strings() {
    assert_eq!(Action::from_menu_id("Qu\\u0069t"), Some(Action::Quit));
    assert_eq!(Action::from_menu_id("Toggle\\u0043onsole"), Some(Action::ToggleConsole));
    assert_eq!(Action::from_menu_id("Notification"), Some(Action::Notification));
    assert_eq!(Action::from_menu_id("Quit\""), None);
    assert_eq!(Action::from_menu_id("Quit\\"), None);
    assert_eq!(Action::from_menu_id("MenuEvent"), None);
    assert_eq!(Action::from_menu_id("TrayIconEvent"), None);
    assert_eq!(Action::from_menu_id(""), None);
}

#[test]
fn worker_background_and_blocking_jobs() {
    let mut w = Worker::new();
    assert!(!w.is_busy());
    let plan = w.start(false);
    assert_eq!(plan, RunPlan { background: false, notify_at_start: false, notify_at_end: false });
    assert!(!w.is_busy());
    let plan = w.start(true);
    assert_eq!(plan, RunPlan { background: true, notify_at_start: true, notify_at_end: true });
    assert!(w.is_busy());
    assert!(w.job_ended());
    assert!(!w.is_busy());
}

#[test]
fn sleep_job_counts_its_seconds() {
    let mut job = SleepJob::new(3);
    let mut lines = Vec::new();
    while job.pending() {
        lines.push(job.tick());
    }
    assert_eq!(lines, vec!["1", "2", "3"]);
    assert_eq!(job.result(), "finished");
    let empty = SleepJob::new(0);
    assert!(!empty.pending());
    let mut long = SleepJob::new(12);
    let mut last = String::new();
    while long.pending() {
        last = long.tick();
    }
    assert_eq!(last, "12");
}

#[test]
fn server_replies() {
    assert_eq!(hello(), "hello world");
    assert!(access_allowed(None));
    assert!(access_allowed(Some("chrome-extension://abcdef")));
    assert!(!access_allowed(Some("https://example.com")));
    assert!(!access_allowed(Some("")));
    assert_eq!(
        set_response(Ok(())),
        JsonValue::Object(vec![("success".to_string(), JsonValue::Bool(true))])
    );
    assert_eq!(
        set_response(Err("bad".to_string())),
        JsonValue::Object(vec![
            ("data".to_string(), JsonValue::Str("bad".to_string())),
            ("success".to_string(), JsonValue::Bool(false)),
        ])
    );
    assert_eq!(
        config_context(JsonValue::Null),
        JsonValue::Object(vec![
            ("items".to_string(), JsonValue::Null),
            ("title".to_string(), JsonValue::Str("CONFIG".to_string())),
        ])
    );
}

#[test]
fn start_page() {
    assert_eq!(page_name(Ok(Some("tray".to_string()))), "tray");
    assert_eq!(page_name(Ok(None)), "hoge");
    assert_eq!(page_name(Err(())), "");
    let page = root("tray").ok().unwrap();
    assert_eq!(
        page,
        "<!DOCTYPE html>\n<html>\n  <head>\n    <title>tray Page</title>\n  </head>\n  <body>\n    <h1>Welcome tray</h1>\n  </body>\n</html>\n"
    );
    let escaped = root("<b>").ok().unwrap();
    assert!(escaped.contains("<title>&lt;b&gt; Page</title>"));
    assert_eq!(
        root("a&'\"/").ok().unwrap(),
        "<!DOCTYPE html>\n<html>\n  <head>\n    <title>a&amp;&#x27;&quot;&#x2F; Page</title>\n  </head>\n  <body>\n    <h1>Welcome a&amp;&#x27;&quot;&#x2F;</h1>\n  </body>\n</html>\n"
    );
    assert_eq!(
        root("").ok().unwrap(),
        "<!DOCTYPE html>\n<html>\n  <head>\n    <title> Page</title>\n  </head>\n  <body>\n    <h1>Welcome </h1>\n  </body>\n</html>\n"
    );
}

#[test]
fn settings() {
    assert_eq!(default_host(), "localhost:8000");
    let a = Args { host: "h".to_string(), current: Some("/tmp".to_string()) };
    assert_eq!(a.init(), Some("/tmp".to_string()));
    let b = Args { host: "h".to_string(), current: None };
    assert_eq!(b.init(), None);
}

fn png(width: u32, height: u32, pixel: [u8; 4]) -> Vec<u8> {
    let img = image::RgbaImage::from_pixel(width, height, image::Rgba(pixel));
    let mut out = std::io::Cursor::new(Vec::new());
    img.write_to(&mut out, image::ImageFormat::Png).unwrap();
    out.into_inner()
}

#[test]
fn icon_images() {
    let idle = png(2, 3, [0, 0, 255, 255]);
    let busy = png(4, 1, [255, 0, 0, 255]);
    let i = load_icon(false, &idle, &busy).unwrap();
    assert_eq!((i.width, i.height, i.rgba.len()), (2, 3, 24));
    assert_eq!(&i.rgba[0..4], &[0, 0, 255, 255]);
    let b = load_icon(true, &idle, &busy).unwrap();
    assert_eq!((b.width, b.height), (4, 1));
    assert_eq!(&b.rgba[0..4], &[255, 0, 0, 255]);
    assert!(load_icon(false, &[1, 2, 3], &busy).is_none());
}

#[test]
fn config_pages() {
    let settings = JsonValue::Object(vec![
        ("host".to_string(), JsonValue::Str("<b>".to_string())),
        ("port".to_string(), JsonValue::Number("8080".to_string())),
    ]);
    assert_eq!(config_page("{{ title }}", &settings), Ok("CONFIG".to_string()));
    assert_eq!(
        config_page("{{ items.host.type }}={{ items.host.value }}", &settings),
        Ok("string=<b>".to_string())
    );
    assert_eq!(config_page("{{ items.port.value }}", &settings), Ok("8080".to_string()));
    assert_eq!(config_page("{{", &settings), Err(PageError::Template));
    assert_eq!(
        config_page("{{ title }}", &JsonValue::Number("eight".to_string())),
        Err(PageError::Context)
    );
}
