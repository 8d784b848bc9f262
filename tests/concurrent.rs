use dsi_progress_logger::{
    share, BufferedProgressLogger, ConcurrentProgressLog, ConcurrentWrapper, ProgressLog,
    ProgressLogger,
};

#[test]
fn threshold_pushes_exactly_at_the_threshold() {
    let mut cpl = ConcurrentWrapper::with_threshold(10);
    cpl.start("");
    let before = cpl.count();
    for _ in 0..9 {
        cpl.update();
    }
    assert_eq!(cpl.count(), before);
    cpl.update();
    assert_eq!(cpl.count(), before + 10);
    cpl.flush();
    assert_eq!(cpl.count(), before + 10);
}

#[test]
fn dropping_a_handle_pushes_its_buffer_once() {
    let mut cpl = ConcurrentWrapper::new();
    cpl.start("");
    let mut handle = cpl.clone();
    for _ in 0..5 {
        handle.update();
    }
    assert_eq!(cpl.count(), 0);
    drop(handle);
    assert_eq!(cpl.count(), 5);
    cpl.flush();
    assert_eq!(cpl.count(), 5);
}

#[test]
fn handles_add_up() {
    let mut cpl = ConcurrentWrapper::with_threshold(7);
    cpl.start("");
    let mut a = cpl.clone();
    let mut b = cpl.clone();
    for _ in 0..20 {
        a.update();
        b.update_with_count(3);
    }
    a.light_update();
    drop(a);
    drop(b);
    cpl.flush();
    assert_eq!(cpl.count(), 20 + 60 + 1);
}

#[test]
fn light_updates_push_on_the_mask() {
    let mut cpl = ConcurrentWrapper::with_threshold(1);
    cpl.start("");
    for _ in 0..1023 {
        cpl.light_update();
    }
    assert_eq!(cpl.count(), 0);
    cpl.light_update();
    assert_eq!(cpl.count(), 1024);
}

#[test]
fn update_and_display_pushes_and_logs() {
    let mut cpl = ConcurrentWrapper::new();
    cpl.start("go");
    cpl.update_with_count(3);
    cpl.update_and_display();
    assert_eq!(cpl.count(), 4);
    let lines = cpl.take_lines();
    assert_eq!(lines.len(), 2);
    assert_eq!(lines[0].text, "go");
}

#[test]
fn start_forgets_the_buffer() {
    let mut cpl = ConcurrentWrapper::new();
    cpl.start("");
    cpl.update_with_count(3);
    cpl.start("");
    cpl.flush();
    assert_eq!(cpl.count(), 0);
}

#[test]
fn overflowing_buffer_pushes_in_two_steps() {
    let mut cpl = ConcurrentWrapper::with_threshold(u32::MAX);
    cpl.start("");
    cpl.update_with_count(5);
    cpl.update_with_count(usize::MAX - 2);
    assert_eq!(cpl.count(), usize::MAX);
}

#[test]
fn dup_has_its_own_counter() {
    let mut pl = ProgressLogger::default();
    pl.item_names("pumpkin", "pumpkins");
    let mut cpl = pl.concurrent();
    cpl.start("");
    cpl.update_and_display();
    let mut other = cpl.dup();
    other.start("");
    other.update_and_display();
    other.update_and_display();
    assert_eq!(cpl.count(), 1);
    assert_eq!(other.count(), 2);
    assert!(cpl.render().starts_with("1 pumpkin, "));
}

#[test]
fn done_through_the_wrapper() {
    let mut cpl = ConcurrentWrapper::new();
    cpl.item_name("pumpkin").expected_updates(Some(10));
    cpl.start("go");
    cpl.update_with_count(3);
    cpl.flush();
    cpl.done_with_count(100);
    assert_eq!(cpl.count(), 100);
    let lines = cpl.take_lines();
    assert_eq!(lines.len(), 3);
    assert_eq!(lines[1].text, "Completed.");
    assert!(lines[2].text.contains("[100 pumpkins, "));
}

#[test]
fn buffered_logger_pushes_at_its_threshold() {
    let shared = share(ProgressLogger::default());
    let mut b = BufferedProgressLogger::with_threshold(shared.clone(), 3);
    let mut c = b.clone();
    b.update();
    b.update();
    c.light_update();
    let count = |s: &dsi_progress_logger::SharedLogger<ProgressLogger>| s.count();
    assert_eq!(count(&shared), 0);
    b.update();
    assert_eq!(count(&shared), 3);
    b.update_with_count(1);
    b.flush();
    assert_eq!(count(&shared), 4);
    drop(c);
    assert_eq!(count(&shared), 5);
    b.update_and_display();
    assert_eq!(count(b.inner()), 6);
}

#[test]
fn buffered_default_threshold() {
    let shared = share(ProgressLogger::default());
    let mut b = BufferedProgressLogger::new(shared);
    b.update_with_count(32767);
    assert_eq!(b.inner().count(), 0);
    b.update();
    assert_eq!(b.inner().count(), 32768);
}

#[test]
fn dropped_counts_arrive_before_the_next_status_line() {
    let mut cpl = ConcurrentWrapper::new();
    cpl.item_name("pumpkin");
    cpl.start("");
    let mut handle = cpl.clone();
    handle.update_with_count(41);
    drop(handle);
    cpl.update_and_display();
    let lines = cpl.take_lines();
    assert_eq!(lines.len(), 1);
    assert!(lines[0].text.starts_with("42 pumpkins, "));
}
