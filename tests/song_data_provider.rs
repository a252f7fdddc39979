use danceinterpreter::async_utils::DroppingOnce;
use danceinterpreter::songinfo::SongInfo;
use danceinterpreter::song_data_provider::{
    SongChange, SongDataEdit, SongDataProvider, SongDataSource,
};

fn titled(title: &str) -> SongInfo {
    SongInfo::new(0, title.to_string(), String::new(), String::new(), None)
}

fn loaded(titles: &[&str]) -> SongDataProvider {
    let mut p = SongDataProvider::new();
    p.set_vec(titles.iter().map(|t| titled(t)).collect());
    p
}

#[test]
fn set_vec_starts_at_first_song() {
    let p = loaded(&["a", "b"]);
    assert_eq!(p.current, SongDataSource::Playlist(0));
    assert_eq!(p.playlist_played, vec![false, false]);
    assert_eq!(p.get_current_song_info().unwrap().title, "a");
    assert_eq!(p.get_next_song_info().unwrap().title, "b");
    let empty = loaded(&[]);
    assert_eq!(empty.current, SongDataSource::Blank);
    assert_eq!(empty.get_current_song_info(), None);
}

#[test]
fn next_and_prev_mark_played() {
    let mut p = loaded(&["a", "b", "c"]);
    p.next();
    p.next();
    assert_eq!(p.current, SongDataSource::Playlist(2));
    p.next();
    assert_eq!(p.current, SongDataSource::Playlist(2));
    assert_eq!(p.playlist_played, vec![true, true, false]);
    p.prev();
    assert_eq!(p.current, SongDataSource::Playlist(1));
    assert_eq!(p.playlist_played, vec![true, true, true]);
    p.prev();
    p.prev();
    assert_eq!(p.current, SongDataSource::Playlist(0));
}

#[test]
fn chosen_next_song_goes_first() {
    let mut p = loaded(&["a", "b", "c"]);
    p.set_next(SongDataSource::Playlist(2));
    assert_eq!(p.get_next_song_info().unwrap().title, "c");
    p.next();
    assert_eq!(p.current, SongDataSource::Playlist(2));
    assert_eq!(p.next, None);
    assert_eq!(p.playlist_played, vec![true, false, false]);
}

#[test]
fn statics_and_other_sources() {
    let mut p = loaded(&["a"]);
    p.set_statics(vec![SongInfo::with_dance("Break".to_string())]);
    p.handle_song_change(SongChange::StaticAbsolute(0));
    assert_eq!(p.get_current_song_info().unwrap().dance, "Break");
    assert_eq!(p.get_next_song_info(), None);
    assert_eq!(p.playlist_played, vec![true]);
    p.handle_song_change(SongChange::Blank);
    assert_eq!(p.get_current_song_info(), None);
    p.set_current(SongDataSource::Other(titled("x")));
    assert_eq!(p.get_current_song_info().unwrap().title, "x");
    assert_eq!(p.get_next_song_info().unwrap().title, "x");
    p.handle_song_change(SongChange::Traktor);
    assert_eq!(p.get_current_song_info(), None);
}

#[test]
fn set_current_checks_playlist_bounds() {
    let mut p = loaded(&["a", "b"]);
    p.set_current(SongDataSource::Playlist(5));
    assert_eq!(p.current, SongDataSource::Playlist(0));
    p.set_current(SongDataSource::Playlist(1));
    assert_eq!(p.current, SongDataSource::Playlist(1));
}

#[test]
fn append_delete_and_edit() {
    let mut p = loaded(&["a", "b"]);
    p.append_song(titled("c"));
    assert_eq!(p.playlist_songs.len(), 3);
    assert_eq!(p.playlist_played.len(), 3);
    p.delete_song(SongDataSource::Playlist(0));
    assert_eq!(p.playlist_songs[0].title, "b");
    assert_eq!(p.playlist_played.len(), 2);
    p.handle_song_data_edit(1, SongDataEdit::Title("C".to_string()));
    p.handle_song_data_edit(0, SongDataEdit::Dance("Tango".to_string()));
    p.handle_song_data_edit(7, SongDataEdit::Artist("nobody".to_string()));
    assert_eq!(p.playlist_songs[1].title, "C");
    assert_eq!(p.playlist_songs[0].dance, "Tango");
}

#[test]
fn handle_runs_teardown_once() {
    let mut h = DroppingOnce::new(7u32, 9u32);
    assert!(!h.is_terminated());
    assert_eq!(h.size_hint(), (1, Some(1)));
    if let Some(f) = h.future_mut() {
        *f = 8;
    }
    assert_eq!(h.future, Some(8));
    h.finish();
    assert!(h.is_terminated());
    assert_eq!(h.size_hint(), (0, Some(0)));
    assert_eq!(h.take_drop_fn(), Some(9));
    assert_eq!(h.take_drop_fn(), None);
}
