use fetch_panel::model::{Effect, Model, Msg, Update, INFO_URL};

fn asks_for_the_document(out: &Update) -> bool {
    match &out.effect {
        Some(Effect::Get { url }) => url == "https://www.reddit.com/r/TheMotte/top.json",
        None => false,
    }
}

#[test]
fn new_panel_shows_placeholder() {
    let model = Model::create(());
    assert_eq!(model.value(), 0);
    assert_eq!(model.msg(), "...");
    assert!(model.fetch_task().is_none());
}

#[test]
fn first_render_loads_and_success_shows_body() {
    let mut model = Model::create(());
    let first = model.rendered(true);
    assert!(matches!(first, Some(Msg::LoadInfo)));

    let out = model.update(first.unwrap());
    assert!(out.should_render);
    assert!(asks_for_the_document(&out));
    assert_eq!(model.value(), 1);
    assert_eq!(model.fetch_task().map(|token| token.serial()), Some(1));
    assert_eq!(model.msg(), "...");

    let out = model.update(Msg::SetInfo(Ok("hello".to_string())));
    assert!(out.should_render);
    assert!(out.effect.is_none());
    assert_eq!(model.msg(), "hello");
    assert!(model.fetch_task().is_none());
    assert_eq!(model.value(), 1);
}

#[test]
fn button_loads_again_and_failure_shows_description() {
    let mut model = Model::create(());
    model.update(Msg::LoadInfo);
    model.update(Msg::SetInfo(Ok("hello".to_string())));

    let out = model.update(Msg::LoadInfo);
    assert!(asks_for_the_document(&out));
    assert_eq!(model.value(), 2);
    assert_eq!(model.fetch_task().map(|token| token.serial()), Some(2));
    assert_eq!(model.msg(), "hello");

    let out = model.update(Msg::SetInfo(Err(anyhow::Error::msg("timeout"))));
    assert!(out.should_render);
    assert!(out.effect.is_none());
    assert_eq!(model.msg(), "timeout");
    assert_eq!(model.value(), 2);
    assert!(model.fetch_task().is_none());
}

#[test]
fn later_renders_ask_for_nothing() {
    let mut model = Model::create(());
    model.update(Msg::LoadInfo);
    assert!(model.rendered(false).is_none());
    assert_eq!(model.value(), 1);
    assert_eq!(model.fetch_task().map(|token| token.serial()), Some(1));
    let mut model = Model::create(());
    assert!(model.rendered(false).is_none());
    assert_eq!(model.value(), 0);
}

#[test]
fn counter_is_the_number_of_loads() {
    let mut model = Model::create(());
    for n in 1..=25i64 {
        model.update(Msg::LoadInfo);
        assert_eq!(model.value(), n);
        if n % 3 == 0 {
            model.update(Msg::SetInfo(Ok(format!("body {}", n))));
            assert_eq!(model.value(), n);
        }
        if n % 5 == 0 {
            model.update(Msg::SetInfo(Err(anyhow::Error::msg("refused"))));
            assert_eq!(model.value(), n);
        }
    }
    assert_eq!(model.value(), 25);
}

#[test]
fn body_is_shown_as_it_came() {
    let body = "  {\"kind\": \"Listing\",\n\t\"data\": [\u{e9}, \u{1F600}]}  ";
    let mut model = Model::create(());
    model.update(Msg::LoadInfo);
    model.update(Msg::SetInfo(Ok(body.to_string())));
    assert_eq!(model.msg(), body);

    model.update(Msg::SetInfo(Ok(String::new())));
    assert_eq!(model.msg(), "");
}

#[test]
fn failure_leaves_counter_and_shows_text() {
    let mut model = Model::create(());
    model.update(Msg::LoadInfo);
    model.update(Msg::LoadInfo);
    model.update(Msg::LoadInfo);
    model.update(Msg::SetInfo(Err(anyhow::Error::msg("connection reset"))));
    assert_eq!(model.value(), 3);
    assert!(!model.msg().is_empty());
    assert_eq!(model.msg(), "connection reset");
}

#[test]
fn failure_shows_outermost_description_only() {
    let error = anyhow::Error::msg("socket closed").context("could not load the document");
    assert_eq!(format!("{:#}", error), "could not load the document: socket closed");
    let mut model = Model::create(());
    model.update(Msg::LoadInfo);
    model.update(Msg::SetInfo(Err(error)));
    assert_eq!(model.msg(), "could not load the document");
}

#[test]
fn failure_of_a_standard_error_shows_its_description() {
    let parsed: Result<i32, std::num::ParseIntError> = "x".parse::<i32>();
    let error = anyhow::Error::new(parsed.unwrap_err());
    let mut model = Model::create(());
    model.update(Msg::LoadInfo);
    model.update(Msg::SetInfo(Err(error)));
    assert_eq!(model.msg(), "invalid digit found in string");
}

#[test]
fn failure_with_empty_description_shows_nothing() {
    let mut model = Model::create(());
    model.update(Msg::LoadInfo);
    model.update(Msg::SetInfo(Err(anyhow::Error::msg(""))));
    assert_eq!(model.msg(), "");
    assert_eq!(model.value(), 1);
    assert!(model.fetch_task().is_none());
}

#[test]
fn new_load_replaces_the_one_in_flight() {
    let mut model = Model::create(());
    model.update(Msg::LoadInfo);
    assert_eq!(model.fetch_task().map(|token| token.serial()), Some(1));
    model.update(Msg::LoadInfo);
    assert_eq!(model.fetch_task().map(|token| token.serial()), Some(2));
    assert_eq!(model.value(), 2);
}

#[test]
fn late_outcome_still_lands() {
    let mut model = Model::create(());
    model.update(Msg::LoadInfo);
    model.update(Msg::LoadInfo);
    model.update(Msg::SetInfo(Ok("second".to_string())));
    assert_eq!(model.msg(), "second");
    assert!(model.fetch_task().is_none());

    model.update(Msg::SetInfo(Ok("first".to_string())));
    assert_eq!(model.msg(), "first");
    assert!(model.fetch_task().is_none());
    assert_eq!(model.value(), 2);
}

#[test]
fn outcome_without_a_load_is_shown() {
    let mut model = Model::create(());
    let out = model.update(Msg::SetInfo(Ok("unasked".to_string())));
    assert!(out.should_render);
    assert_eq!(model.msg(), "unasked");
    assert_eq!(model.value(), 0);
    assert!(model.fetch_task().is_none());
}

#[test]
fn change_keeps_everything() {
    let mut model = Model::create(());
    model.update(Msg::LoadInfo);
    model.update(Msg::SetInfo(Ok("kept".to_string())));
    model.update(Msg::LoadInfo);
    assert!(!model.change(()));
    assert_eq!(model.value(), 2);
    assert_eq!(model.msg(), "kept");
    assert_eq!(model.fetch_task().map(|token| token.serial()), Some(2));
}

#[test]
fn document_address_is_fixed() {
    assert_eq!(INFO_URL, "https://www.reddit.com/r/TheMotte/top.json");
}

#[test]
fn load_tells_which_request_to_send() {
    let mut model = Model::create(());
    match model.load_info() {
        Effect::Get { url } => assert_eq!(url, "https://www.reddit.com/r/TheMotte/top.json"),
    }
    assert_eq!(model.value(), 1);
    assert_eq!(model.msg(), "...");
    assert_eq!(model.fetch_task().map(|token| token.serial()), Some(1));
}

#[test]
fn text_of_an_outcome_is_put_on_display() {
    let mut model = Model::create(());
    model.load_info();
    model.set_info("a body".to_string());
    assert_eq!(model.msg(), "a body");
    assert_eq!(model.value(), 1);
    assert!(model.fetch_task().is_none());

    model.set_info(String::new());
    assert_eq!(model.msg(), "");
    assert_eq!(model.value(), 1);
}
