use session_server::period;
use session_server::BodyHandle;
use session_server::Command;
use session_server::EntityState;
use session_server::Player;
use session_server::Point;
use session_server::Receive;
use session_server::Server;
use session_server::Snapshot;
use session_server::FPS;
use session_server::SPEED_LIMIT;
use std::collections::HashMap;

fn bits(x: f32, y: f32) -> Point {
    Point { x: x.to_bits(), y: y.to_bits() }
}

fn body(index: u32) -> BodyHandle {
    BodyHandle { index, generation: 0 }
}

fn at(x: f32) -> EntityState {
    EntityState { x: x.to_bits(), y: 0, cos: 0x3f80_0000, sin: 0 }
}

fn connect(server: &mut Server, id: u64, index: u32) -> BodyHandle {
    assert_eq!(server.handle(Receive::Connect(id)), Command::Spawn(id));
    assert!(server.on_connect(id, body(index)));
    body(index)
}

fn channels(ids: &[u64]) -> HashMap<u64, ()> {
    ids.iter().map(|id| (*id, ())).collect()
}

fn sorted(mut handles: Vec<BodyHandle>) -> Vec<BodyHandle> {
    handles.sort_by_key(|handle| handle.index);
    handles
}

#[test]
fn player_new_has_no_command() {
    let handle = BodyHandle { index: 3, generation: 9 };
    let player = Player::new(handle);
    assert_eq!(player.handle, handle);
    assert_eq!(player.position, None);
    assert_eq!(player, Player { handle, position: None });
}

#[test]
fn the_speed_limit_is_1024() {
    assert_eq!(SPEED_LIMIT, 1024.0f32.to_bits());
}

#[test]
fn points_in_range() {
    assert!(bits(0.0, 0.0).is_in_range());
    assert!(bits(-0.0, 10.0).is_in_range());
    assert!(bits(1024.0, -1024.0).is_in_range());
    assert!(bits(-1023.9999, f32::MIN_POSITIVE).is_in_range());
    assert!(Point { x: 0x4480_0000, y: 0xc480_0000 }.is_in_range());
    assert!(!Point { x: 0x4480_0001, y: 0 }.is_in_range());
    assert!(!Point { x: 0, y: 0xc480_0001 }.is_in_range());
    assert!(!bits(1024.0001, 0.0).is_in_range());
    assert!(!bits(0.0, -1e12).is_in_range());
    assert!(!bits(f32::MAX, 0.0).is_in_range());
    assert!(!bits(f32::INFINITY, 0.0).is_in_range());
    assert!(!bits(0.0, f32::NEG_INFINITY).is_in_range());
    assert!(!bits(f32::NAN, 0.0).is_in_range());
    assert!(!Point { x: 0, y: 0xffc0_0000 }.is_in_range());
}

#[test]
fn the_period_is_a_second_by_the_rate() {
    assert_eq!(FPS, 60);
    assert_eq!(period(FPS), 16);
    assert_eq!(period(1), 1000);
    assert_eq!(period(30), 33);
    assert_eq!(period(1000), 1);
    assert_eq!(period(1001), 0);
}

#[test]
fn a_new_server_has_no_session() {
    let server = Server::new();
    assert_eq!(server.len(), 0);
    assert_eq!(server.ticks(), 0);
    assert_eq!(server.get(1), None);
    assert!(!server.owns(body(0)));
}

#[test]
fn connect_asks_for_a_body_and_changes_nothing() {
    let mut server = Server::new();
    assert_eq!(server.handle(Receive::Connect(7)), Command::Spawn(7));
    assert_eq!(server.len(), 0);
    assert_eq!(server.get(7), None);
}

#[test]
fn on_connect_binds_the_body() {
    let mut server = Server::new();
    let a = connect(&mut server, 7, 0);
    assert_eq!(server.len(), 1);
    assert_eq!(server.get(7), Some(Player { handle: a, position: None }));
    assert!(server.owns(a));
    assert!(!server.owns(body(1)));
    let b = connect(&mut server, 8, 1);
    assert_eq!(server.len(), 2);
    assert_eq!(server.get(7), Some(Player { handle: a, position: None }));
    assert_eq!(server.get(8), Some(Player { handle: b, position: None }));
}

#[test]
fn on_connect_refuses_a_body_that_a_session_holds() {
    let mut server = Server::new();
    let a = connect(&mut server, 7, 0);
    assert!(!server.on_connect(8, a));
    assert!(!server.on_connect(7, a));
    assert_eq!(server.len(), 1);
    assert_eq!(server.get(7), Some(Player { handle: a, position: None }));
    assert_eq!(server.get(8), None);
    assert!(!server.on_connect(8, BodyHandle { index: 0, generation: 0 }));
    assert!(server.on_connect(8, BodyHandle { index: 0, generation: 1 }));
    assert_eq!(server.len(), 2);
}

#[test]
fn a_second_connect_replaces_the_session() {
    let mut server = Server::new();
    let first = connect(&mut server, 7, 0);
    let command = bits(1.0, 0.0);
    assert_eq!(server.handle(Receive::Message(7, Some(command))), Command::Steer(first, command));
    let second = connect(&mut server, 7, 1);
    assert_eq!(server.len(), 1);
    assert_eq!(server.get(7), Some(Player { handle: second, position: None }));
    assert!(!server.owns(first));
    assert!(server.owns(second));
}

#[test]
fn disconnect_erases_the_session_and_asks_for_the_body() {
    let mut server = Server::new();
    let a = connect(&mut server, 1, 0);
    let b = connect(&mut server, 2, 1);
    assert_eq!(server.handle(Receive::Disconnect(1)), Command::Remove(a));
    assert_eq!(server.len(), 1);
    assert_eq!(server.get(1), None);
    assert!(!server.owns(a));
    assert_eq!(server.get(2), Some(Player { handle: b, position: None }));
}

#[test]
fn disconnect_twice_is_disconnect_once() {
    let mut server = Server::new();
    let a = connect(&mut server, 1, 0);
    let b = connect(&mut server, 2, 1);
    assert_eq!(server.handle(Receive::Disconnect(1)), Command::Remove(a));
    assert_eq!(server.handle(Receive::Disconnect(1)), Command::Idle);
    assert_eq!(server.on_disconnect(1), Command::Idle);
    assert_eq!(server.len(), 1);
    assert_eq!(server.get(1), None);
    assert_eq!(server.get(2), Some(Player { handle: b, position: None }));
}

#[test]
fn disconnect_of_an_unknown_connection_is_ignored() {
    let mut server = Server::new();
    let a = connect(&mut server, 1, 0);
    assert_eq!(server.handle(Receive::Disconnect(9)), Command::Idle);
    assert_eq!(server.len(), 1);
    assert!(server.owns(a));
}

#[test]
fn a_command_is_taken_up() {
    let mut server = Server::new();
    let a = connect(&mut server, 1, 0);
    let b = connect(&mut server, 2, 1);
    let command = bits(1.0, -0.5);
    assert_eq!(server.handle(Receive::Message(1, Some(command))), Command::Steer(a, command));
    assert_eq!(server.get(1), Some(Player { handle: a, position: Some(command) }));
    assert_eq!(server.get(2), Some(Player { handle: b, position: None }));
}

#[test]
fn the_later_of_two_commands_stands() {
    let mut server = Server::new();
    let a = connect(&mut server, 1, 0);
    let first = bits(-10.0, 0.0);
    let second = bits(10.0, 0.0);
    assert_eq!(server.handle(Receive::Message(1, Some(first))), Command::Steer(a, first));
    assert_eq!(server.handle(Receive::Message(1, Some(second))), Command::Steer(a, second));
    assert_eq!(server.get(1), Some(Player { handle: a, position: Some(second) }));
}

#[test]
fn a_command_without_a_session_is_ignored() {
    let mut server = Server::new();
    let a = connect(&mut server, 1, 0);
    assert_eq!(server.handle(Receive::Message(2, Some(bits(1.0, 0.0)))), Command::Idle);
    assert_eq!(server.len(), 1);
    assert_eq!(server.get(1), Some(Player { handle: a, position: None }));
    assert_eq!(server.get(2), None);
}

#[test]
fn a_frame_that_did_not_decode_is_dropped() {
    let mut server = Server::new();
    let a = connect(&mut server, 1, 0);
    let kept = bits(2.0, 0.0);
    assert_eq!(server.handle(Receive::Message(1, Some(kept))), Command::Steer(a, kept));
    assert_eq!(server.handle(Receive::Message(1, None)), Command::Idle);
    assert_eq!(server.on_input(1, None), Command::Idle);
    assert_eq!(server.get(1), Some(Player { handle: a, position: Some(kept) }));
}

#[test]
fn a_command_out_of_range_is_dropped() {
    let mut server = Server::new();
    let a = connect(&mut server, 1, 0);
    let kept = bits(0.0, 1024.0);
    assert_eq!(server.handle(Receive::Message(1, Some(kept))), Command::Steer(a, kept));
    for dropped in [
        bits(f32::INFINITY, 0.0),
        bits(0.0, f32::NAN),
        bits(f32::NEG_INFINITY, 1.0),
        bits(1e12, 0.0),
        bits(0.0, -1025.0),
        bits(f32::MAX, f32::MAX),
    ] {
        assert_eq!(server.handle(Receive::Message(1, Some(dropped))), Command::Idle);
    }
    assert_eq!(server.get(1), Some(Player { handle: a, position: Some(kept) }));
}

#[test]
fn reconcile_erases_the_sessions_without_a_channel() {
    let mut server = Server::new();
    let a = connect(&mut server, 1, 0);
    let b = connect(&mut server, 2, 1);
    let c = connect(&mut server, 3, 2);
    let gone = sorted(server.reconcile(&channels(&[2, 5])));
    assert_eq!(gone, vec![a, c]);
    assert_eq!(server.len(), 1);
    assert_eq!(server.get(1), None);
    assert_eq!(server.get(3), None);
    assert_eq!(server.get(2), Some(Player { handle: b, position: None }));
}

#[test]
fn reconcile_keeps_commands_of_the_sessions_that_stay() {
    let mut server = Server::new();
    let a = connect(&mut server, 1, 0);
    let b = connect(&mut server, 2, 1);
    let command = bits(0.5, 0.5);
    assert_eq!(server.handle(Receive::Message(1, Some(command))), Command::Steer(a, command));
    assert_eq!(server.reconcile(&channels(&[1])), vec![b]);
    assert_eq!(server.get(1), Some(Player { handle: a, position: Some(command) }));
}

#[test]
fn reconcile_with_every_channel_live_changes_nothing() {
    let mut server = Server::new();
    let a = connect(&mut server, 1, 0);
    let b = connect(&mut server, 2, 1);
    assert_eq!(server.reconcile(&channels(&[1, 2, 3])), vec![]);
    assert_eq!(server.len(), 2);
    assert!(server.owns(a));
    assert!(server.owns(b));
}

#[test]
fn reconcile_without_channels_erases_every_session() {
    let mut server = Server::new();
    let a = connect(&mut server, 1, 0);
    let b = connect(&mut server, 2, 1);
    assert_eq!(sorted(server.reconcile(&channels(&[]))), vec![a, b]);
    assert_eq!(server.len(), 0);
    assert_eq!(server.reconcile(&channels(&[])), vec![]);
}

#[test]
fn a_lost_disconnect_is_made_up_by_one_reconciliation() {
    let mut server = Server::new();
    let kept = connect(&mut server, 0, 100);
    let mut lost = Vec::new();
    for id in 1..=20u64 {
        lost.push(connect(&mut server, id, id as u32));
    }
    assert_eq!(server.len(), 21);
    let gone = sorted(server.reconcile(&channels(&[0])));
    assert_eq!(gone, lost);
    for id in 1..=20u64 {
        assert_eq!(server.get(id), None);
    }
    assert_eq!(server.get(0), Some(Player { handle: kept, position: None }));
}

#[test]
fn targets_are_the_bodies_of_the_sessions_with_a_channel() {
    let mut server = Server::new();
    let a = connect(&mut server, 1, 0);
    let _b = connect(&mut server, 2, 1);
    let c = connect(&mut server, 3, 2);
    assert_eq!(sorted(server.targets(&channels(&[1, 3, 9]))), vec![a, c]);
    assert_eq!(server.targets(&channels(&[9, 10])), vec![]);
    assert_eq!(server.targets(&channels(&[])), vec![]);
    assert_eq!(server.len(), 3);
}

#[test]
fn snapshot_keeps_the_states_in_order_without_the_missing() {
    let mut server = Server::new();
    let states = vec![Some(at(3.0)), None, Some(at(-1.0)), Some(at(3.0)), None];
    let snapshot = server.snapshot(&states);
    assert_eq!(snapshot, Snapshot { entities: vec![at(3.0), at(-1.0), at(3.0)], tick: 0 });
    assert_eq!(server.snapshot(&vec![None, None]), Snapshot { entities: vec![], tick: 1 });
    assert_eq!(server.snapshot(&vec![]), Snapshot { entities: vec![], tick: 2 });
}

#[test]
fn snapshots_are_numbered_in_order() {
    let mut server = Server::new();
    let _a = connect(&mut server, 1, 0);
    for expected in 0..5u64 {
        assert_eq!(server.ticks(), expected);
        let snapshot = server.snapshot(&vec![Some(at(0.0))]);
        assert_eq!(snapshot.tick, expected);
        assert_eq!(snapshot.entities.len(), 1);
    }
    assert_eq!(server.ticks(), 5);
    assert_eq!(server.len(), 1);
}

#[test]
fn every_session_has_a_body_after_every_tick() {
    let mut server = Server::new();
    let mut live: HashMap<u64, ()> = HashMap::new();
    let mut bodies: Vec<BodyHandle> = Vec::new();
    let mut next = 0u32;
    let mut seed: u64 = 0x2545_f491_4f6c_dd1d;
    for _ in 0..300 {
        for _ in 0..4 {
            seed ^= seed << 13;
            seed ^= seed >> 7;
            seed ^= seed << 17;
            let id = (seed >> 8) % 12;
            let event = match seed % 5 {
                0 | 1 => {
                    live.insert(id, ());
                    Receive::Connect(id)
                },
                2 => {
                    live.remove(&id);
                    Receive::Disconnect(id)
                },
                3 => {
                    live.remove(&id);
                    continue;
                },
                _ => Receive::Message(id, Some(bits(1.0, 0.0))),
            };
            match server.handle(event) {
                Command::Spawn(id) => {
                    bodies.push(body(next));
                    assert!(server.on_connect(id, body(next)));
                    next += 1;
                },
                Command::Remove(handle) => bodies.retain(|b| *b != handle),
                Command::Steer(handle, _) => assert!(bodies.contains(&handle)),
                Command::Idle => {},
            }
        }
        for handle in server.reconcile(&live) {
            assert!(bodies.contains(&handle));
            bodies.retain(|b| *b != handle);
        }
        let targets = server.targets(&live);
        assert_eq!(targets.len(), server.len());
        for handle in targets {
            assert!(bodies.contains(&handle));
        }
        for id in 0..12u64 {
            if let Some(player) = server.get(id) {
                assert!(live.contains_key(&id));
                assert!(bodies.contains(&player.handle));
            }
        }
    }
}
