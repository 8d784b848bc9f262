use dsi_progress_logger::buffering::{plan_add, FlushPlan};
use dsi_progress_logger::{humanize, scale, TimeUnit};

// `scale` gives the scaled value in hundredths: 100 is 1.00.
#[test]
fn test_scale() {
    assert_eq!(scale(1000), (100, "k"));
    assert_eq!(scale(300_000), (30000, "k"));
    assert_eq!(scale(1_000_000_000), (100, "G"));
}

#[test]
fn test_humanize() {
    assert_eq!(humanize(1000), "1.00k");
    assert_eq!(humanize(12_345), "12.35k");
    assert_eq!(humanize(1_234_567_890), "1.23G");
}

#[test]
fn scale_stays_below_a_thousand_or_moves_up() {
    assert_eq!(scale(999), (99900, ""));
    assert_eq!(scale(1000), (100, "k"));
    assert_eq!(scale(1_000_000), (100, "M"));
    assert_eq!(scale(0), (0, ""));
    assert_eq!(scale(u64::MAX), (1845, "E"));
}

#[test]
fn humanize_small_and_rounding() {
    assert_eq!(humanize(0), "0.00");
    assert_eq!(humanize(999), "999.00");
    assert_eq!(humanize(1_005), "1.01k");
    assert_eq!(humanize(999_995), "1000.00k");
}

#[test]
fn pretty_print_breaks_durations_down() {
    assert_eq!(TimeUnit::pretty_print(500), "500ms");
    assert_eq!(TimeUnit::pretty_print(1500), "1s");
    assert_eq!(TimeUnit::pretty_print(90_000), "1m 30s");
    assert_eq!(TimeUnit::pretty_print(90_000_000), "1d 1h 0m 0s");
}

#[test]
fn pretty_print_edges() {
    assert_eq!(TimeUnit::pretty_print(0), "0ms");
    assert_eq!(TimeUnit::pretty_print(999), "999ms");
    assert_eq!(TimeUnit::pretty_print(1000), "1s");
    assert_eq!(TimeUnit::pretty_print(3_600_000), "1h 0m 0s");
    assert_eq!(TimeUnit::pretty_print(86_400_000), "1d 0h 0m 0s");
    assert_eq!(TimeUnit::pretty_print(3_661_999), "1h 1m 1s");
}

#[test]
fn labels_and_lengths_of_units() {
    assert_eq!(TimeUnit::NanoSeconds.label(), "ns");
    assert_eq!(TimeUnit::MicroSeconds.label(), "μs");
    assert_eq!(TimeUnit::MilliSeconds.label(), "ms");
    assert_eq!(TimeUnit::Seconds.label(), "s");
    assert_eq!(TimeUnit::Minutes.label(), "m");
    assert_eq!(TimeUnit::Hours.label(), "h");
    assert_eq!(TimeUnit::Days.label(), "d");
    assert_eq!(TimeUnit::Minutes.as_nanos(), 60_000_000_000);
    assert_eq!(TimeUnit::Days.as_nanos(), 86_400_000_000_000);
}

#[test]
fn nice_time_unit_picks_the_largest_unit_not_longer() {
    // half a second per item
    assert_eq!(TimeUnit::nice_time_unit(1_000_000_000, 2), TimeUnit::MilliSeconds);
    // two hours per item
    assert_eq!(TimeUnit::nice_time_unit(7_200_000_000_000, 1), TimeUnit::Hours);
    // a tenth of a nanosecond per item
    assert_eq!(TimeUnit::nice_time_unit(1, 10), TimeUnit::NanoSeconds);
    // exactly one second per item
    assert_eq!(TimeUnit::nice_time_unit(3_000_000_000, 3), TimeUnit::Seconds);
}

#[test]
fn nice_speed_unit_picks_the_first_unit_not_shorter() {
    assert_eq!(TimeUnit::nice_speed_unit(1_000_000_000, 2), TimeUnit::Seconds);
    assert_eq!(TimeUnit::nice_speed_unit(90_000_000_000, 1), TimeUnit::Hours);
    assert_eq!(TimeUnit::nice_speed_unit(60_000_000_000, 1), TimeUnit::Minutes);
    assert_eq!(TimeUnit::nice_speed_unit(100 * 86_400_000_000_000, 1), TimeUnit::Days);
}

#[test]
fn plan_keeps_pushes_or_splits() {
    assert_eq!(plan_add(3, 10, 2), FlushPlan::Keep(5));
    assert_eq!(plan_add(8, 10, 2), FlushPlan::Push(10));
    assert_eq!(plan_add(0, 0, 0), FlushPlan::Push(0));
    assert_eq!(plan_add(7, 10, usize::MAX), FlushPlan::PushTwo(7, usize::MAX));
}
