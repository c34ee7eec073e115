use resident::json::JsonValue;
use resident::tide_tray::{links, post_arguments, AddJob, UserData};

#[test]
fn call_greets_when_idle() {
    let mut d = UserData::new();
    let r = d.call();
    assert!(r.start_script);
    assert_eq!(r.body, "Hello, world! UserData { busy: false, count: 1 }");
    assert_eq!(d, UserData { busy: false, count: 1 });
}

#[test]
fn call_is_busy_during_job() {
    let mut d = UserData::new();
    d.begin_add();
    let r = d.call();
    assert!(!r.start_script);
    assert_eq!(r.body, "Busy");
    assert_eq!(d.count, 1);
    assert!(d.busy);
}

#[test]
fn add_job_counts_ten() {
    let mut d = UserData { busy: false, count: 5 };
    d.begin_add();
    let mut last = String::new();
    for _ in 0..10 {
        last = d.add_step();
    }
    assert_eq!(last, "count up : UserData { busy: true, count: 15 }");
    d.end_add();
    assert_eq!(d, UserData { busy: false, count: 15 });
    assert_eq!(d.debug_text(), format!("{:?}", d));
}

#[test]
fn get_links_reply() {
    let link = |v: &str| {
        JsonValue::Object(vec![("link".to_string(), JsonValue::Str(v.to_string()))])
    };
    assert_eq!(links(), JsonValue::Array(vec![link("123"), link("456")]));
}

#[test]
fn post_script_arguments() {
    assert_eq!(
        post_arguments("cat"),
        vec!["Start-Process", "-FilePath", "dotnet", "-ArgumentList", "'script script.csx cat'"]
    );
}

#[test]
fn add_job_takes_ten_steps() {
    let mut d = UserData::new();
    let mut job = AddJob::start(&mut d);
    assert!(d.busy);
    assert_eq!(job.remaining, 10);
    let mut lines = Vec::new();
    while job.pending() {
        lines.push(job.step(&mut d));
        assert!(d.busy);
    }
    job.finish(&mut d);
    assert_eq!(lines.len(), 10);
    assert_eq!(lines[0], "count up : UserData { busy: true, count: 1 }");
    assert_eq!(lines[9], "count up : UserData { busy: true, count: 10 }");
    assert_eq!(d, UserData { busy: false, count: 10 });
}

#[test]
fn requests_beside_add_job_are_busy() {
    let mut d = UserData::new();
    let mut job = AddJob::start(&mut d);
    let mut replies = Vec::new();
    while job.pending() {
        replies.push(d.call());
        job.step(&mut d);
    }
    replies.push(d.call());
    job.finish(&mut d);
    assert_eq!(replies.len(), 11);
    for r in &replies {
        assert!(!r.start_script);
        assert_eq!(r.body, "Busy");
    }
    assert_eq!(d, UserData { busy: false, count: 21 });
    let r = d.call();
    assert!(r.start_script);
    assert_eq!(r.body, "Hello, world! UserData { busy: false, count: 22 }");
}
