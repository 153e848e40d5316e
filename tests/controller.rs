use player_core::app::{App, InputMode, SinkCommand};
use player_core::cursor::{step_index, Direction};

fn catalog() -> Vec<String> {
    vec!["a.mp3".to_string(), "b.flac".to_string(), "c.wav".to_string()]
}

fn play(app: &mut App, index: usize) -> u64 {
    app.begin_play();
    app.finish_play(index).expect("a fresh generation")
}

#[test]
fn new_controller_is_idle_with_cursor_on_first_song() {
    let app = App::new(catalog());
    assert_eq!(app.selected_song_index, Some(0));
    assert_eq!(app.current_song_path, None);
    assert!(!app.is_playing);
    assert_eq!(app.input_mode, InputMode::Normal);
    assert_eq!(app.generations.live, None);
}

#[test]
fn empty_catalog_transport_is_noop() {
    let mut app = App::new(Vec::new());
    assert_eq!(app.selected_song_index, None);
    assert_eq!(app.play_selected_song(), None);
    assert_eq!(app.next_song(), None);
    assert_eq!(app.previous_song(), None);
    app.select_next();
    app.select_previous();
    assert_eq!(app.selected_song_index, None);
    assert_eq!(app.generations.live, None);
    assert_eq!(app.generations.issued, 0);
}

#[test]
fn advance_next_from_middle_wraps_to_first() {
    let mut app = App::new(catalog());
    app.select_next();
    let i = app.play_selected_song().unwrap();
    assert_eq!(i, 1);
    play(&mut app, i);
    assert_eq!(app.current_song_path.as_deref(), Some("b.flac"));
    let n = app.next_song().unwrap();
    play(&mut app, n);
    assert_eq!(app.current_song_path.as_deref(), Some("c.wav"));
    let n = app.next_song().unwrap();
    play(&mut app, n);
    assert_eq!(app.current_song_path.as_deref(), Some("a.mp3"));
    assert_eq!(app.selected_song_index, Some(0));
}

#[test]
fn advance_without_now_playing_starts_at_first() {
    let mut app = App::new(catalog());
    app.select_next();
    app.select_next();
    assert_eq!(app.next_song(), Some(0));
    assert_eq!(app.previous_song(), Some(0));
}

#[test]
fn advancing_list_length_times_returns_to_start() {
    for dir in [Direction::Next, Direction::Previous] {
        let mut app = App::new(catalog());
        play(&mut app, 1);
        for _ in 0..3 {
            let i = app.advance(dir).unwrap();
            play(&mut app, i);
        }
        assert_eq!(app.current_song_path.as_deref(), Some("b.flac"));
    }
}

#[test]
fn previous_song_wraps_to_last() {
    let mut app = App::new(catalog());
    play(&mut app, 0);
    assert_eq!(app.previous_song(), Some(2));
}

#[test]
fn cursor_moves_wrap_both_ways() {
    let mut app = App::new(catalog());
    app.select_previous();
    assert_eq!(app.selected_song_index, Some(2));
    app.select_next();
    assert_eq!(app.selected_song_index, Some(0));
    assert_eq!(app.current_song_path, None);
    assert_eq!(step_index(2, 3, Direction::Next), 0);
    assert_eq!(step_index(0, 3, Direction::Previous), 2);
    assert_eq!(step_index(1, 3, Direction::Previous), 0);
}

#[test]
fn play_retires_previous_generation() {
    let mut app = App::new(catalog());
    let g0 = play(&mut app, 0);
    assert_eq!(app.generations.live, Some(g0));
    let retired = app.begin_play();
    assert_eq!(retired, Some(g0));
    assert_eq!(app.generations.live, None);
    let g1 = app.finish_play(2).unwrap();
    assert_ne!(g0, g1);
    assert_eq!(app.generations.live, Some(g1));
    assert_eq!(app.current_song_path.as_deref(), Some("c.wav"));
    assert!(app.is_playing);
}

#[test]
fn rapid_plays_keep_one_live_generation() {
    let mut app = App::new(catalog());
    let mut seen = Vec::new();
    for k in 0..10usize {
        let g = play(&mut app, k % 3);
        assert!(!seen.contains(&g));
        seen.push(g);
        assert_eq!(app.generations.live, Some(g));
    }
    assert_eq!(app.generations.issued, 10);
}

#[test]
fn failed_open_leaves_controller_idle() {
    let mut app = App::new(catalog());
    play(&mut app, 0);
    app.begin_play();
    app.abort_play();
    assert_eq!(app.current_song_path, None);
    assert!(!app.is_playing);
    assert_eq!(app.generations.live, None);
}

#[test]
fn toggle_needs_a_song_and_a_device() {
    let mut app = App::new(catalog());
    assert_eq!(app.play_pause(Some(false)), None);
    play(&mut app, 0);
    assert_eq!(app.play_pause(None), None);
    assert!(app.is_playing);
    assert_eq!(app.play_pause(Some(false)), Some(SinkCommand::Pause));
    assert!(!app.is_playing);
    assert_eq!(app.play_pause(Some(true)), Some(SinkCommand::Play));
    assert!(app.is_playing);
}

#[test]
fn auto_advance_only_when_drained_while_playing() {
    let mut app = App::new(catalog());
    assert!(!app.should_auto_advance(Some(true)));
    play(&mut app, 0);
    assert!(app.should_auto_advance(Some(true)));
    assert!(!app.should_auto_advance(Some(false)));
    assert!(!app.should_auto_advance(None));
}

#[test]
fn seek_steps_five_seconds_and_clamps_at_start() {
    let app = App::new(catalog());
    let s = 1_000_000_000u64;
    let fwd = app.seek_forward(Some(false), 12 * s).unwrap();
    assert_eq!(fwd, 17 * s);
    assert_eq!(app.seek_backward(Some(false), fwd), Some(12 * s));
    assert_eq!(app.seek_backward(Some(false), 3 * s), Some(0));
    assert_eq!(app.seek_backward(Some(false), 5 * s), Some(0));
    assert_eq!(app.seek_forward(Some(false), u64::MAX - 1), Some(u64::MAX));
    assert_eq!(app.seek_forward(Some(true), 12 * s), None);
    assert_eq!(app.seek_backward(None, 12 * s), None);
    assert!(app.is_seekable(Some(false)));
    assert!(!app.is_seekable(Some(true)));
    assert!(!app.is_seekable(None));
}

#[test]
fn search_filters_case_insensitively_in_catalog_order() {
    let mut app = App::new(vec![
        "/m/Rock/One.mp3".to_string(),
        "/m/jazz/two.flac".to_string(),
        "/m/rock/Three.wav".to_string(),
    ]);
    app.start_editing();
    assert_eq!(app.input_mode, InputMode::Editing);
    for c in "ROCKx".chars() {
        app.type_char(c);
    }
    assert_eq!(app.selected_song_index, None);
    app.erase_char();
    assert_eq!(app.input, "ROCK");
    app.submit_search();
    assert_eq!(app.input_mode, InputMode::Normal);
    assert_eq!(app.search_results, vec!["/m/Rock/One.mp3".to_string(), "/m/rock/Three.wav".to_string()]);
    assert_eq!(app.selected_song_index, Some(0));
    assert_eq!(app.active_len(), 2);
    assert_eq!(app.next_song(), Some(0));
    app.select_previous();
    assert_eq!(app.active_song(app.selected_song_index.unwrap()).as_deref(), Some("/m/rock/Three.wav"));
    app.clear_search();
    assert_eq!(app.input, "");
    assert!(app.search_results.is_empty());
    assert_eq!(app.selected_song_index, Some(0));
    assert_eq!(app.active_len(), 3);
}

#[test]
fn search_without_match_clears_cursor() {
    let mut app = App::new(catalog());
    app.start_editing();
    app.type_char('z');
    app.submit_search();
    assert!(app.search_results.is_empty());
    assert_eq!(app.selected_song_index, None);
    assert_eq!(app.play_selected_song(), None);
    assert_eq!(app.next_song(), None);
    app.erase_char();
    assert_eq!(app.selected_song_index, Some(0));
    app.erase_char();
    assert_eq!(app.input, "");
    app.stop_editing();
    assert_eq!(app.input_mode, InputMode::Normal);
}

#[test]
fn empty_search_follows_whole_catalog() {
    let mut app = App::new(catalog());
    app.select_next();
    app.start_editing();
    app.submit_search();
    assert_eq!(app.search_results, catalog());
    assert_eq!(app.selected_song_index, Some(0));
    assert_eq!(app.input_mode, InputMode::Normal);
}

#[test]
fn typing_repairs_stale_cursor() {
    let mut app = App::new(catalog());
    app.select_previous();
    assert_eq!(app.selected_song_index, Some(2));
    app.type_char('a');
    assert_eq!(app.selected_song_index, None);
    app.erase_char();
    assert_eq!(app.selected_song_index, Some(0));
}
