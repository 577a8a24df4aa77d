use sps::context_engine::context::ContextWindow;

#[test]
fn context_remembers_messages() {
    let mut ctx = ContextWindow::new(5);
    ctx.add("user", "مرحبا", 1);
    ctx.add("system", "أهلاً بك", 2);
    assert_eq!(ctx.recent(2).len(), 2);
}

#[test]
fn resolves_reference() {
    let mut ctx = ContextWindow::new(5);
    ctx.add("user", "أنا أحب Rust", 1);
    ctx.add("user", "هذا رائع", 2);
    let resolved = ctx.resolve_reference("هذا رائع");
    assert!(resolved.contains("Rust"));
}

#[test]
fn resolution_replaces_each_reference_word() {
    let mut ctx = ContextWindow::new(5);
    ctx.add("user", "أنا أحب Rust", 1);
    assert_eq!(ctx.resolve_reference("هذا رائع"), "(Rust) رائع");
    assert_eq!(ctx.resolve_reference("لا إشارة هنا"), "لا إشارة هنا");
    let empty = ContextWindow::new(5);
    assert_eq!(empty.resolve_reference("هذا رائع"), "هذا رائع");
}

#[test]
fn max_size_is_respected() {
    let mut ctx = ContextWindow::new(3);
    for i in 1..=5 {
        ctx.add("user", &format!("msg{}", i), i);
    }
    assert_eq!(ctx.recent(10).len(), 3);
}

#[test]
fn recent_keeps_the_latest_in_order() {
    let mut ctx = ContextWindow::new(3);
    for i in 1..=5 {
        ctx.add("user", &format!("msg{}", i), i);
    }
    let recent: Vec<String> = ctx.recent(2).iter().map(|m| m.content.clone()).collect();
    assert_eq!(recent, vec!["msg4".to_string(), "msg5".to_string()]);
    assert_eq!(ctx.recent(0).len(), 0);
    assert_eq!(ctx.as_prompt(), "user: msg3\nuser: msg4\nuser: msg5");
}

#[test]
fn a_window_of_size_zero_keeps_nothing() {
    let mut ctx = ContextWindow::new(0);
    ctx.add("user", "hello", 1);
    assert!(ctx.recent(5).is_empty());
    assert_eq!(ctx.as_prompt(), "");
}
