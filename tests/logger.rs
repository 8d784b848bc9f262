use dsi_progress_logger::{Level, ProgressLog, ProgressLogger, TimeUnit};

const SECOND: u64 = 1_000_000_000;

fn quiet_logger() -> ProgressLogger {
    let mut pl = ProgressLogger::default();
    pl.item_names("item", "items").log_interval(1000 * SECOND);
    pl
}

#[test]
fn not_started_logger_says_so() {
    let pl = ProgressLogger::default();
    assert_eq!(pl.render(), "ProgressLogger not started");
    assert_eq!(pl.elapsed(), None);
}

#[test]
fn running_status_line() {
    let mut pl = quiet_logger();
    pl.start_at("", 0);
    pl.update_with_count_and_time(2, SECOND);
    assert_eq!(pl.render_at(SECOND), "2 items, 1s, 2.00 items/s, 500.00 ms/item");
}

#[test]
fn running_status_line_with_progress() {
    let mut pl = quiet_logger();
    pl.expected_updates(Some(10));
    pl.start_at("", 0);
    pl.update_with_count_and_time(2, SECOND);
    assert_eq!(
        pl.render_at(SECOND),
        "2 items, 1s, 2.00 items/s, 500.00 ms/item; 20.00% done, 2s to end"
    );
}

#[test]
fn no_rate_before_the_first_item() {
    let mut pl = quiet_logger();
    pl.start_at("", 0);
    assert_eq!(pl.render_at(SECOND), "0 items, 1s");
}

#[test]
fn one_item_is_singular() {
    let mut pl = quiet_logger();
    pl.start_at("", 0);
    pl.update_with_count_and_time(1, 2 * SECOND);
    assert_eq!(pl.render_at(2 * SECOND), "1 item, 2s, 30.00 items/m, 2.00 s/item");
}

#[test]
fn counts_are_grouped_unless_a_unit_is_fixed() {
    let mut pl = quiet_logger();
    pl.start_at("", 0);
    pl.update_with_count_and_time(1_234_567, SECOND);
    assert!(pl.render_at(SECOND).starts_with("1,234,567 items, 1s, "));
    pl.time_unit(Some(TimeUnit::Seconds));
    assert_eq!(
        pl.render_at(SECOND),
        "1234567 items, 1s, 1234567.00 items/s, 0.00 s/item"
    );
}

#[test]
fn stopped_status_line() {
    let mut pl = quiet_logger();
    pl.start_at("", 0);
    pl.update_with_count_and_time(2, SECOND);
    pl.stop_at(2 * SECOND);
    assert_eq!(pl.render_at(5 * SECOND), "Elapsed: 2s [2 items, 1.00 items/s, 1.00 s/item]");
}

#[test]
fn stopped_without_items() {
    let mut pl = quiet_logger();
    pl.start_at("", 0);
    pl.stop_at(1500 * 1_000_000);
    assert_eq!(pl.render_at(0), "Elapsed: 1s");
}

#[test]
fn rendering_twice_gives_the_same_line() {
    let mut pl = quiet_logger();
    pl.start_at("", 0);
    pl.update_with_count_and_time(3, SECOND);
    assert_eq!(pl.render_at(2 * SECOND), pl.render_at(2 * SECOND));
    pl.stop_at(2 * SECOND);
    let first = pl.render();
    let second = pl.render();
    assert_eq!(first, second);
    assert_eq!(pl.count(), 3);
}

#[test]
fn local_speed_since_the_last_line() {
    let mut pl = quiet_logger();
    pl.local_speed(true);
    pl.start_at("", 0);
    pl.update_with_count_and_time(4, SECOND);
    pl.log(SECOND);
    pl.update_with_count_and_time(2, 2 * SECOND);
    assert_eq!(
        pl.render_at(2 * SECOND),
        "6 items, 2s, 3.00 items/s, 333.33 ms/item [2.00 items/s, 500.00 ms/item]"
    );
}

#[test]
fn status_lines_come_when_the_interval_has_passed() {
    let mut pl = quiet_logger();
    pl.log_interval(10 * SECOND);
    pl.start_at("go", 0);
    pl.update_with_count_and_time(1, 5 * SECOND);
    assert_eq!(pl.take_lines().len(), 1);
    pl.update_with_count_and_time(1, 10 * SECOND);
    let lines = pl.take_lines();
    assert_eq!(lines.len(), 1);
    assert_eq!(lines[0].level, Level::Info);
    assert_eq!(lines[0].text, "2 items, 10s, 12.00 items/m, 5.00 s/item");
    pl.update_with_count_and_time(1, 15 * SECOND);
    assert!(pl.take_lines().is_empty());
    pl.update_with_count_and_time(1, 20 * SECOND);
    assert_eq!(pl.take_lines().len(), 1);
}

#[test]
fn no_automatic_line_once_stopped() {
    let mut pl = quiet_logger();
    pl.log_interval(SECOND);
    pl.start_at("", 0);
    pl.stop_at(SECOND);
    pl.update_with_count_and_time(1, 100 * SECOND);
    assert!(pl.take_lines().is_empty());
    pl.update_and_display();
    assert_eq!(pl.take_lines().len(), 1);
}

#[test]
fn light_updates_count() {
    let mut pl = quiet_logger();
    pl.start("");
    for _ in 0..1000 {
        pl.light_update();
    }
    pl.update_with_count(500);
    pl.update();
    assert_eq!(pl.count(), 1501);
}

#[test]
fn done_with_count_sets_the_count_and_clears_the_expected_total() {
    let mut pl = quiet_logger();
    pl.expected_updates(Some(1000));
    pl.start("");
    pl.done_with_count(100);
    assert_eq!(pl.count(), 100);
    assert_eq!(pl.expected_total(), None);
}

#[test]
fn pumpkins_session() {
    let mut pl = ProgressLogger::default();
    pl.item_name("pumpkin");
    pl.log_interval(u64::MAX);
    pl.start("go");
    for _ in 0..100 {
        pl.update();
    }
    pl.done();
    assert_eq!(pl.count(), 100);
    let lines = pl.take_lines();
    assert_eq!(lines.len(), 3);
    assert_eq!(lines[0].text, "go");
    assert_eq!(lines[1].text, "Completed.");
    assert!(lines[2].text.starts_with("Elapsed: "));
    assert!(lines[2].text.contains(" [100 pumpkins, "));
    assert!(lines.iter().all(|l| l.level == Level::Info && l.target == "main"));
}

#[test]
fn messages_keep_their_level_and_target() {
    let mut pl = ProgressLogger::with_target("here");
    pl.trace("t");
    pl.debug("d");
    pl.info("i");
    pl.warn("w");
    pl.error("e");
    let lines = pl.take_lines();
    let levels: Vec<Level> = lines.iter().map(|l| l.level).collect();
    assert_eq!(
        levels,
        vec![Level::Trace, Level::Debug, Level::Info, Level::Warn, Level::Error]
    );
    assert!(lines.iter().all(|l| l.target == "here"));
    assert!(pl.take_lines().is_empty());
}

#[test]
fn start_with_empty_message_produces_nothing() {
    let mut pl = quiet_logger();
    pl.start("");
    assert!(pl.take_lines().is_empty());
    assert!(pl.elapsed().is_some());
}

#[test]
fn memory_figures_in_status_lines() {
    let mut pl = quiet_logger();
    pl.display_memory(true);
    pl.start_at("", 0);
    pl.refresh();
    let line = pl.render_at(SECOND);
    assert!(line.starts_with("0 items, 1s; res/vir/avail/free/total mem "));
    assert!(line.ends_with('B'));
    pl.display_memory(false);
    assert_eq!(pl.render_at(SECOND), "0 items, 1s");
}

#[test]
fn clone_keeps_the_configuration_only() {
    let mut pl = quiet_logger();
    pl.item_names("pumpkin", "pumpkins").local_speed(true);
    pl.start("go");
    pl.update();
    let copy = pl.clone();
    assert_eq!(copy.count(), 0);
    assert_eq!(copy.render(), "ProgressLogger not started");
    let mut copy = copy;
    copy.start_at("", 0);
    copy.update_with_count_and_time(1, SECOND);
    assert_eq!(copy.render_at(SECOND), "1 pumpkin, 1s, 1.00 pumpkins/s, 1.00 s/pumpkin [1.00 pumpkins/s, 1.00 s/pumpkin]");
}

#[test]
fn no_logger_does_nothing() {
    let mut pl: Option<ProgressLogger> = None;
    pl.item_name("x").log_interval(1);
    pl.start("go");
    pl.update();
    pl.done();
    assert_eq!(pl.count(), 0);
    assert_eq!(pl.elapsed(), None);
    assert!(pl.take_lines().is_empty());
}

#[test]
fn some_logger_forwards() {
    let mut pl = Some(ProgressLogger::default());
    pl.start("go");
    pl.update_with_count(7);
    assert_eq!(pl.count(), 7);
    assert_eq!(pl.take_lines().len(), 1);
}

fn count_three<P: ProgressLog>(mut pl: P) {
    pl.update();
    pl.update();
    pl.update();
}

#[test]
fn a_mutable_reference_is_a_logger() {
    let mut pl = ProgressLogger::default();
    pl.start("");
    count_three(&mut pl);
    count_three(&mut Some(&mut pl));
    assert_eq!(pl.count(), 6);
}

#[test]
fn a_non_ascii_name_is_its_own_plural() {
    let mut pl = ProgressLogger::default();
    pl.item_name("Aé");
    pl.start_at("", 0);
    pl.update_with_count_and_time(2, SECOND);
    assert!(pl.render_at(SECOND).starts_with("2 Aé, 1s, 2.00 Aé/s, "));
}

#[test]
fn elapsed_at_a_given_time() {
    let mut pl = quiet_logger();
    assert_eq!(pl.elapsed_at(5 * SECOND), None);
    pl.start_at("", 2 * SECOND);
    assert_eq!(pl.elapsed_at(5 * SECOND), Some(3 * SECOND));
    assert_eq!(pl.elapsed_at(SECOND), Some(0));
}

#[test]
fn a_lowercase_non_ascii_name_goes_to_the_pluralizer() {
    let mut pl = ProgressLogger::default();
    pl.item_name("café");
    pl.start_at("", 0);
    pl.update_with_count_and_time(2, SECOND);
    assert!(pl.render_at(SECOND).starts_with("2 caf"));
}
