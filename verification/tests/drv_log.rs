use typhon::drv_log::{init, update, url, view, Msg};

#[test]
fn an_empty_viewer_shows_one_empty_line() {
    let model = init();
    assert_eq!(view(&model), vec![""]);
}

#[test]
fn chunks_are_shown_line_by_line() {
    let mut model = init();
    update(Msg::Chunk("building hello".to_string()), &mut model);
    update(Msg::Chunk("a\nb c".to_string()), &mut model);
    assert_eq!(view(&model), vec!["building\u{a0}hello", "a", "b\u{a0}c"]);
}

#[test]
fn a_chunk_that_ends_a_line_leaves_an_empty_line() {
    let mut model = init();
    update(Msg::Chunk("done\n".to_string()), &mut model);
    update(Msg::Chunk("next".to_string()), &mut model);
    assert_eq!(view(&model), vec!["done", "", "next"]);
}

#[test]
fn the_log_of_a_derivation_has_an_address() {
    assert_eq!(
        url("http://localhost:8000/api", "/nix/store/a.drv"),
        "http://localhost:8000/api/drv-log/nix/store/a.drv"
    );
    assert_eq!(url("", ""), "/drv-log");
}

#[test]
fn messages_can_be_copied() {
    let msg = Msg::Chunk("x".to_string());
    assert_eq!(msg.clone(), msg);
}
