use sticker_downloader::download::{join_chunks, Downloader, Task, Tasks, C};
use sticker_downloader::error::AlreadyDownloading;
use sticker_downloader::query_command::{DownloadFormat, DownloadTarget};

fn tasks(id: i32, n: usize) -> Tasks {
    Tasks {
        message_id: id,
        format: DownloadFormat::Webp,
        stickers: (0..n)
            .map(|i| Task { path: format!("loc{i}"), name: format!("s{i}"), size: 1000 + i as u32 })
            .collect(),
    }
}

#[test]
fn same_message_is_refused_until_finished() {
    let mut d = Downloader::new();
    let w = d.download(tasks(7, 2), DownloadTarget::All);
    assert!(w.is_ok());
    assert!(d.is_in_flight(7));
    match d.download(tasks(7, 3), DownloadTarget::Single) {
        Err(AlreadyDownloading(t)) => assert_eq!(t, DownloadTarget::Single),
        Ok(_) => panic!("a second job for the same message was accepted"),
    }
    // another message is independent
    assert!(d.download(tasks(8, 1), DownloadTarget::All).is_ok());
    d.finish(7);
    assert!(!d.is_in_flight(7));
    assert!(d.is_in_flight(8));
    assert!(d.download(tasks(7, 1), DownloadTarget::All).is_ok());
}

#[test]
fn window_keeps_the_task_names() {
    let mut d = Downloader::new();
    let w = match d.download(tasks(1, 2), DownloadTarget::All) {
        Ok(w) => w,
        Err(_) => panic!("refused"),
    };
    assert_eq!(w.job_id(), 1);
    assert_eq!(w.limit(), C);
    assert_eq!(w.items()[0].name, "s0");
    assert_eq!(w.items()[1].path, "loc1");
    let mut t = tasks(2, 1);
    t.format = DownloadFormat::Png;
    let w = match d.download(t, DownloadTarget::Single) {
        Ok(w) => w,
        Err(_) => panic!("refused"),
    };
    assert_eq!(w.items()[0].name, "s0");
}

#[test]
fn at_most_eight_fetches_unresolved() {
    let mut d = Downloader::new();
    let mut w = match d.download(tasks(3, 20), DownloadTarget::All) {
        Ok(w) => w,
        Err(_) => panic!("refused"),
    };
    let mut started = Vec::new();
    let mut max_running = 0;
    let mut step = 0;
    while !w.is_done() {
        while let Some(i) = w.start_next() {
            started.push(i);
            max_running = max_running.max(w.running());
            assert!(w.running() <= 8);
        }
        // land one fetch at a time
        w.landed();
        step += 1;
        assert!(step <= 20);
    }
    assert_eq!(max_running, 8);
    assert_eq!(started, (0..20).collect::<Vec<_>>());
    assert_eq!(w.running(), 0);
    d.finish(3);
    assert!(!d.is_in_flight(3));
}

#[test]
fn chunks_are_joined_in_order() {
    let chunks = vec![vec![1u8, 2], vec![], vec![3, 4, 5]];
    assert_eq!(join_chunks(&chunks), vec![1, 2, 3, 4, 5]);
    assert_eq!(join_chunks(&Vec::new()), Vec::<u8>::new());
}

#[test]
fn total_size_adds_announced_sizes() {
    assert_eq!(tasks(1, 3).total_size(), 1000 + 1001 + 1002);
    assert_eq!(tasks(1, 0).total_size(), 0);
}

#[test]
fn concurrency_is_configurable() {
    let mut d = Downloader::with_concurrency(3);
    let mut w = match d.download(tasks(4, 5), DownloadTarget::All) {
        Ok(w) => w,
        Err(_) => panic!("refused"),
    };
    assert_eq!(w.limit(), 3);
    assert_eq!(w.start_next(), Some(0));
    assert_eq!(w.start_next(), Some(1));
    assert_eq!(w.start_next(), Some(2));
    assert_eq!(w.start_next(), None);
    w.landed();
    assert_eq!(w.start_next(), Some(3));
    assert!(!w.is_done());
}
