use resident::json::JsonValue;
use resident::wasm::making;
use resident::wasm::{extism, pack, string, vanilla};
use resident::wasm::string::{LinearMemory, MallocPlan};

#[test]
fn vanilla_counter_and_add() {
    let mut c = vanilla::Counter::new();
    assert_eq!(c.add(3, 4), 7);
    c.run();
    assert_eq!(c.count, 1);
    assert_eq!(c.add(3, 4), 8);
    c.run();
    assert_eq!(c.add(3, 4), 9);
    assert_eq!(c.add(i32::MAX, 0), i32::MIN + 1);
    let mut top = vanilla::Counter { count: usize::MAX };
    top.run();
    assert_eq!(top.count, 0);
}

#[test]
fn string_messages() {
    assert_eq!(string::run(42), "hello wasm 42");
    assert_eq!(string::run(-7), "hello wasm -7");
    assert_eq!(string::run(i32::MIN), format!("hello wasm {}", i32::MIN));
    assert_eq!(string::print("world".as_bytes()), "Hello, world");
}

#[test]
fn linear_memory_resize() {
    let mut m = LinearMemory::new();
    assert_eq!(m.get_size(), 0);
    m.resize(4);
    assert_eq!(m.get_ptr(), &[0u8, 0, 0, 0][..]);
    m.bytes[1] = 9;
    m.resize(6);
    assert_eq!(m.get_ptr(), &[0u8, 9, 0, 0, 0, 0][..]);
    assert_eq!(m.get_size(), 6);
    m.resize(2);
    assert_eq!(m.get_ptr(), &[0u8, 9][..]);
    assert_eq!(m.get_size(), 2);
}

#[test]
fn malloc_plans() {
    assert_eq!(string::malloc_plan(16, 8), MallocPlan::Allocate);
    assert_eq!(string::malloc_plan(0, 8), MallocPlan::Dangling(8));
    assert_eq!(string::malloc_plan(16, 3), MallocPlan::Fail);
    assert_eq!(string::malloc_plan(16, 0), MallocPlan::Fail);
    assert_eq!(string::malloc_plan(isize::MAX as usize, 2), MallocPlan::Fail);
    assert!(string::layout_allowed(isize::MAX as usize, 1));
    assert!(!string::layout_allowed(isize::MAX as usize + 1, 1));
    assert!(string::free_needed(1));
    assert!(!string::free_needed(0));
}

#[test]
fn plugin_exports() {
    assert_eq!(extism::sum(2, 3), 5);
    assert_eq!(extism::process_bytes(vec![1, 2, 3]), vec![1, 2, 3]);
    assert_eq!(pack::add(2, 3), 5);
    assert_eq!(pack::add(i32::MAX, 1), i32::MIN);
}

#[test]
fn making_exports() {
    assert_eq!(making::args_string("{\"input\":10}".as_bytes()), "{\"input\":10}");
    assert_eq!(making::args_string("héllo".as_bytes()), "héllo");
    assert_eq!(
        making::run(),
        JsonValue::Object(vec![("result".to_string(), JsonValue::Bool(false))])
    );
}

#[test]
fn making_args_value() {
    assert_eq!(
        making::args_value("{\"input\":10}".as_bytes()),
        Some(JsonValue::Object(vec![("input".to_string(), JsonValue::Number("10".to_string()))]))
    );
    assert_eq!(
        making::args_value(" [true, null, \"a\\u0062\", 1.5] ".as_bytes()),
        Some(JsonValue::Array(vec![
            JsonValue::Bool(true),
            JsonValue::Null,
            JsonValue::Str("ab".to_string()),
            JsonValue::Number("1.5".to_string()),
        ]))
    );
    assert_eq!(
        making::args_value("{\"b\":1,\"a\":2}".as_bytes()),
        Some(JsonValue::Object(vec![
            ("a".to_string(), JsonValue::Number("2".to_string())),
            ("b".to_string(), JsonValue::Number("1".to_string())),
        ]))
    );
    assert_eq!(making::args_value("{\"input\":".as_bytes()), None);
    assert_eq!(making::args_value("".as_bytes()), None);
    assert_eq!(making::args_value("1 2".as_bytes()), None);
}

#[test]
fn making_result_text() {
    assert_eq!(making::result(&making::run()), Some("{\"result\":false}".to_string()));
    assert_eq!(
        making::result(&JsonValue::Array(vec![
            JsonValue::Number("10".to_string()),
            JsonValue::Str("a\"b".to_string()),
            JsonValue::Null,
        ])),
        Some("[10,\"a\\\"b\",null]".to_string())
    );
    assert_eq!(making::result(&JsonValue::Number("ten".to_string())), None);
}

#[test]
fn malloc_and_free_pair_up() {
    for (size, align) in [(0usize, 1usize), (0, 8), (16, 8), (5, 1), (7, 4)] {
        let plan = string::malloc_plan(size, align);
        assert_eq!(plan == MallocPlan::Allocate, string::free_needed(size));
        if size == 0 {
            assert_eq!(plan, MallocPlan::Dangling(align));
        }
    }
    assert_eq!(string::malloc_plan(8, 3), MallocPlan::Fail);
    assert_eq!(string::malloc_plan(8, 0), MallocPlan::Fail);
    assert!(string::layout_allowed(isize::MAX as usize, 1));
    assert!(!string::layout_allowed(isize::MAX as usize, 2));
    assert!(string::layout_allowed(isize::MAX as usize - 7, 8));
    assert!(!string::layout_allowed(isize::MAX as usize - 6, 8));
    assert!(string::layout_allowed(0, 1usize << 63));
    assert!(!string::layout_allowed(1, 1usize << 63));
}
