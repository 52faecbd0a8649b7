use oxikcde::failure::Failure;
use oxikcde::navigation::{get_comic_number, resolve, SwitchToComic};
use oxikcde::state::State;

fn at(current: u16, bookmark: Option<u16>) -> State {
    State::new(Some((current, bookmark)))
}

#[test]
fn previous_steps_back_by_one() {
    for current in [2u16, 3, 42, 1000, u16::MAX] {
        assert_eq!(
            resolve(SwitchToComic::Previous, &at(current, None), None, 0),
            Ok(current - 1)
        );
    }
}

#[test]
fn previous_stops_at_first_comic() {
    assert_eq!(resolve(SwitchToComic::Previous, &at(1, None), None, 0), Ok(1));
    assert_eq!(resolve(SwitchToComic::Previous, &at(1, None), Some(10), 5), Ok(1));
}

#[test]
fn specific_is_returned_verbatim() {
    for number in [0u16, 1, 42, 9999, u16::MAX] {
        assert_eq!(
            resolve(SwitchToComic::Specific(number), &at(7, Some(3)), None, 0),
            Ok(number)
        );
        assert_eq!(
            resolve(SwitchToComic::Specific(number), &at(7, None), Some(10), 4),
            Ok(number)
        );
    }
}

#[test]
fn next_advances_below_latest() {
    assert_eq!(resolve(SwitchToComic::Next, &at(5, None), Some(10), 0), Ok(6));
    assert_eq!(resolve(SwitchToComic::Next, &at(9, None), Some(10), 0), Ok(10));
}

#[test]
fn next_stays_at_latest() {
    assert_eq!(resolve(SwitchToComic::Next, &at(10, None), Some(10), 0), Ok(10));
    assert_eq!(resolve(SwitchToComic::Next, &at(11, None), Some(10), 0), Ok(11));
    assert_eq!(
        resolve(SwitchToComic::Next, &at(u16::MAX, None), Some(u16::MAX), 0),
        Ok(u16::MAX)
    );
}

#[test]
fn latest_and_first() {
    assert_eq!(resolve(SwitchToComic::Latest, &at(5, None), Some(3000), 0), Ok(3000));
    assert_eq!(resolve(SwitchToComic::First, &at(5, None), None, 0), Ok(1));
    assert_eq!(resolve(SwitchToComic::LastSeen, &at(5, Some(2)), None, 0), Ok(5));
}

#[test]
fn lookup_failure_aborts_navigation() {
    let state = at(5, Some(2));
    for intent in [SwitchToComic::Next, SwitchToComic::Latest, SwitchToComic::Random] {
        assert_eq!(resolve(intent, &state, None, 3), Err(Failure::LookupFailed));
        let mut rng = rand::thread_rng();
        assert_eq!(
            get_comic_number(&mut rng, &state, intent, None),
            Err(Failure::LookupFailed)
        );
    }
    assert_eq!(state, at(5, Some(2)));
}

#[test]
fn navigation_without_lookup_ignores_latest() {
    let state = at(5, Some(2));
    for intent in [
        SwitchToComic::Previous,
        SwitchToComic::First,
        SwitchToComic::Bookmarked,
        SwitchToComic::Specific(77),
        SwitchToComic::LastSeen,
    ] {
        assert!(!intent.needs_latest());
        assert_eq!(
            resolve(intent, &state, None, 0),
            resolve(intent, &state, Some(10), 9)
        );
    }
    for intent in [SwitchToComic::Next, SwitchToComic::Latest, SwitchToComic::Random] {
        assert!(intent.needs_latest());
    }
}

#[test]
fn bookmarked_falls_back_to_current() {
    let mut state = at(42, None);
    assert_eq!(resolve(SwitchToComic::Bookmarked, &state, None, 0), Ok(42));
    assert!(state.toggle_bookmark());
    assert_eq!(state.bookmarked_comic(), Some(42));
    assert_eq!(resolve(SwitchToComic::Bookmarked, &state, None, 0), Ok(42));
    state.switch_to(43);
    assert_eq!(state.current_comic(), 43);
    assert_eq!(resolve(SwitchToComic::Bookmarked, &state, None, 0), Ok(42));
}

#[test]
fn random_uses_pick() {
    assert_eq!(resolve(SwitchToComic::Random, &at(5, None), Some(10), 7), Ok(7));
    assert_eq!(resolve(SwitchToComic::Random, &at(5, None), Some(10), 1), Ok(1));
}

#[test]
fn random_never_returns_latest() {
    let state = at(5, None);
    let mut rng = rand::thread_rng();
    let mut seen = [false; 10];
    for _ in 0..2000 {
        let number = get_comic_number(&mut rng, &state, SwitchToComic::Random, Some(10)).unwrap();
        assert!((1..10).contains(&number));
        seen[number as usize] = true;
    }
    assert!(!seen[0]);
    assert!(seen[1..].iter().all(|&hit| hit));
}

#[test]
fn random_in_archive_of_two() {
    let state = at(2, None);
    let mut rng = rand::thread_rng();
    for _ in 0..50 {
        assert_eq!(
            get_comic_number(&mut rng, &state, SwitchToComic::Random, Some(2)),
            Ok(1)
        );
    }
}

#[test]
fn get_comic_number_agrees_with_resolve() {
    let state = at(5, Some(2));
    let mut rng = rand::thread_rng();
    for intent in [
        SwitchToComic::Next,
        SwitchToComic::Previous,
        SwitchToComic::Latest,
        SwitchToComic::First,
        SwitchToComic::Bookmarked,
        SwitchToComic::Specific(0),
        SwitchToComic::LastSeen,
    ] {
        assert_eq!(
            get_comic_number(&mut rng, &state, intent, Some(10)),
            resolve(intent, &state, Some(10), 0)
        );
    }
}
