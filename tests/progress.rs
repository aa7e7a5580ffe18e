use sticker_downloader::progress::{push_decimal, Dimensionless, KiB, Notify, Progress, Unit};

#[test]
fn kib_counts_one_change_per_kibibyte() {
    let (mut p, first) = Progress::new("Queueing");
    assert_eq!(first, Notify::Send("Queueing".to_string()));
    let mut scope = p.scope("Downloading stickers", 10240).with_unit(KiB);
    let mut changes = 0;
    for _ in 0..10240 {
        // every earlier notification has landed, so none is skipped for that
        if scope.inc_by(&mut p, 1, true) != Notify::Skip {
            changes += 1;
        }
    }
    assert_eq!(changes, 10);
    assert_eq!(scope.done, 10240);
}

#[test]
fn kib_significant_change_boundaries() {
    assert!(!KiB.is_significant_change(0, 1023));
    assert!(KiB.is_significant_change(1023, 1024));
    assert!(!KiB.is_significant_change(1024, 2047));
    assert!(KiB.is_significant_change(0, 5000));
    assert_eq!(KiB.apply(10240), 10);
    assert_eq!(KiB.postfix_with_leading_space(), " KiB");
}

#[test]
fn dimensionless_changes_on_every_increase() {
    assert!(Dimensionless.is_significant_change(3, 4));
    assert!(!Dimensionless.is_significant_change(4, 4));
    assert_eq!(Dimensionless.apply(17), 17);
    assert_eq!(Dimensionless.postfix_with_leading_space(), "");
}

#[test]
fn stage_text_is_rendered() {
    let (mut p, _) = Progress::new("start");
    let mut scope = p.scope("Fetching sticker info", 4);
    let n = scope.inc(&mut p, true);
    assert_eq!(n, Notify::Send("Fetching sticker info 25% (1/4)".to_string()));
    let mut scope = p.scope("Downloading stickers", 4096).with_unit(KiB);
    let n = scope.inc_by(&mut p, 3072, true);
    assert_eq!(n, Notify::Send("Downloading stickers 75% (3/4 KiB)".to_string()));
}

#[test]
fn zero_total_does_not_divide_by_zero() {
    let (mut p, _) = Progress::new("start");
    let mut scope = p.scope("Downloading stickers", 0).with_unit(KiB);
    let n = scope.inc_by(&mut p, 2048, true);
    assert_eq!(n, Notify::Send("Downloading stickers 0% (2/0 KiB)".to_string()));
}

#[test]
fn percentage_is_taken_from_raw_counts() {
    let (mut p, _) = Progress::new("start");
    let mut scope = p.scope("Downloading stickers", 20480).with_unit(KiB);
    assert_eq!(scope.inc_by(&mut p, 1023, true), Notify::Skip);
    let n = scope.inc_by(&mut p, 1024, true);
    // 2047 of 20480 bytes is 9%, though 1 of 20 KiB is shown
    assert_eq!(n, Notify::Send("Downloading stickers 9% (1/20 KiB)".to_string()));
}

#[test]
fn newer_text_supersedes_the_one_kept_back() {
    let (mut p, _) = Progress::new("start");
    // the first text is still in flight: both are kept back, the newer wins
    assert_eq!(p.title("next", false), Notify::Skip);
    assert_eq!(p.title("newer", false), Notify::Skip);
    assert_eq!(p.poll(false), Notify::Skip);
    // the slot frees: the text kept back is the next one sent
    assert_eq!(p.poll(true), Notify::Send("newer".to_string()));
    // nothing is kept back any more
    assert_eq!(p.poll(true), Notify::Skip);
    assert_eq!(p.title("again", true), Notify::Send("again".to_string()));
}

#[test]
fn increments_hand_out_the_latest_stage_text() {
    let (mut p, _) = Progress::new("start");
    let mut scope = p.scope("Counting", 10);
    assert_eq!(scope.inc(&mut p, false), Notify::Skip);
    assert_eq!(scope.inc(&mut p, false), Notify::Skip);
    assert_eq!(scope.done, 2);
    let mut scope = scope.with_unit(KiB);
    // no displayed change, but the slot is free: the kept text goes out
    assert_eq!(scope.inc_by(&mut p, 1, true), Notify::Send("Counting 20% (2/10)".to_string()));
}

#[test]
fn important_title_drops_the_text_kept_back() {
    let (mut p, _) = Progress::new("start");
    assert_eq!(p.title("stale", false), Notify::Skip);
    assert_eq!(p.title_imp("Uploading"), Notify::SendAfterPending("Uploading".to_string()));
    assert_eq!(p.poll(true), Notify::Skip);
}

#[test]
fn important_title_waits_for_the_pending_one() {
    let (mut p, _) = Progress::new("start");
    assert_eq!(
        p.title_imp("Uploading sticker set"),
        Notify::SendAfterPending("Uploading sticker set".to_string())
    );
}

#[test]
fn decimal_rendering() {
    let mut s = String::from("n=");
    push_decimal(&mut s, 0);
    s.push(',');
    push_decimal(&mut s, 1234567890);
    s.push(',');
    push_decimal(&mut s, u128::MAX);
    assert_eq!(s, format!("n=0,1234567890,{}", u128::MAX));
}
