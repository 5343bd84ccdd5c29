use session_server::broadcast;
use session_server::open;
use session_server::Attempt;
use session_server::Offer;
use session_server::Outbound;

fn received(rx: &mut futures_channel::mpsc::Receiver<String>) -> Vec<String> {
    let mut frames = Vec::new();
    while let Ok(Some(frame)) = rx.try_next() {
        frames.push(frame);
    }
    frames
}

fn sorted(mut report: Vec<Attempt>) -> Vec<Attempt> {
    report.sort_by_key(|attempt| attempt.id);
    report
}

#[test]
fn broadcast_to_nobody_reports_nothing() {
    let mut outbound = Outbound::new();
    assert_eq!(broadcast(&mut outbound, &String::from("frame")), vec![]);
    assert!(outbound.is_empty());
}

#[test]
fn broadcast_offers_the_frame_to_every_connection() {
    let mut outbound = Outbound::new();
    let (mut a, _) = open(&mut outbound, 1, 4);
    let (mut b, _) = open(&mut outbound, 2, 4);
    let (mut c, _) = open(&mut outbound, 3, 4);
    let report = sorted(broadcast(&mut outbound, &String::from("[[],0]")));
    assert_eq!(
        report,
        vec![
            Attempt { id: 1, outcome: Offer::Accepted },
            Attempt { id: 2, outcome: Offer::Accepted },
            Attempt { id: 3, outcome: Offer::Accepted },
        ]
    );
    assert_eq!(outbound.len(), 3);
    assert_eq!(received(&mut a), vec![String::from("[[],0]")]);
    assert_eq!(received(&mut b), vec![String::from("[[],0]")]);
    assert_eq!(received(&mut c), vec![String::from("[[],0]")]);
}

#[test]
fn a_full_channel_does_not_hold_up_the_others() {
    let mut outbound = Outbound::new();
    let (mut stuck, _) = open(&mut outbound, 1, 0);
    let (mut quick, _) = open(&mut outbound, 2, 0);
    let first = sorted(broadcast(&mut outbound, &String::from("tick 0")));
    assert_eq!(
        first,
        vec![
            Attempt { id: 1, outcome: Offer::Accepted },
            Attempt { id: 2, outcome: Offer::Accepted },
        ]
    );
    assert_eq!(received(&mut quick), vec![String::from("tick 0")]);
    for tick in 1..50 {
        let frame = format!("tick {}", tick);
        let report = sorted(broadcast(&mut outbound, &frame));
        assert_eq!(
            report,
            vec![
                Attempt { id: 1, outcome: Offer::Full },
                Attempt { id: 2, outcome: Offer::Accepted },
            ]
        );
        assert_eq!(received(&mut quick), vec![frame]);
    }
    assert_eq!(outbound.len(), 2);
    assert_eq!(received(&mut stuck), vec![String::from("tick 0")]);
}

#[test]
fn a_missed_frame_is_made_up_by_the_next() {
    let mut outbound = Outbound::new();
    let (mut slow, _) = open(&mut outbound, 1, 0);
    assert_eq!(
        broadcast(&mut outbound, &String::from("tick 0")),
        vec![Attempt { id: 1, outcome: Offer::Accepted }]
    );
    assert_eq!(
        broadcast(&mut outbound, &String::from("tick 1")),
        vec![Attempt { id: 1, outcome: Offer::Full }]
    );
    assert_eq!(received(&mut slow), vec![String::from("tick 0")]);
    assert_eq!(
        broadcast(&mut outbound, &String::from("tick 2")),
        vec![Attempt { id: 1, outcome: Offer::Accepted }]
    );
    assert_eq!(received(&mut slow), vec![String::from("tick 2")]);
}

#[test]
fn a_closed_channel_is_reported_and_kept() {
    let mut outbound = Outbound::new();
    let (gone, _) = open(&mut outbound, 1, 4);
    let (mut here, _) = open(&mut outbound, 2, 4);
    drop(gone);
    let report = sorted(broadcast(&mut outbound, &String::from("frame")));
    assert_eq!(
        report,
        vec![
            Attempt { id: 1, outcome: Offer::Closed },
            Attempt { id: 2, outcome: Offer::Accepted },
        ]
    );
    assert_eq!(outbound.len(), 2);
    assert_eq!(received(&mut here), vec![String::from("frame")]);
}
