use post_list::component::{App, Effect, Msg, Step};
use post_list::fetch::{check_status, FetchError};
use post_list::html::{Html, PostItem};
use post_list::post::Post;

fn post(id: u32, title: &str, body: &str) -> Post {
    Post::new(id, title.to_string(), body.to_string())
}

fn started() -> App {
    let (mut app, msg) = App::create();
    let step = app.update(msg);
    assert_eq!(step, Step { rerender: false, effect: Effect::Fetch });
    app
}

fn empty_list() -> Html {
    Html::List { heading: "Lista de Posts".to_string(), items: vec![] }
}

#[test]
fn initial_state_is_loading() {
    let (app, msg) = App::create();
    assert!(app.loading());
    assert!(app.posts().is_empty());
    assert_eq!(msg, Msg::FetchPosts);
    assert_eq!(app.view(), Html::Loading { text: "Carregando...".to_string() });
}

#[test]
fn fetch_message_keeps_loading_view() {
    let app = started();
    assert!(app.loading());
    assert_eq!(app.view(), Html::Loading { text: "Carregando...".to_string() });
}

#[test]
fn success_keeps_records_in_server_order() {
    let mut app = started();
    let posts = vec![post(3, "c", "cc"), post(1, "a", "aa"), post(2, "b", "bb")];
    let step = app.update(Msg::ReceiveResponse(Ok(posts.clone())));
    assert_eq!(step, Step { rerender: true, effect: Effect::Nothing });
    assert!(!app.loading());
    assert_eq!(app.posts(), &posts);
    let expected = Html::List {
        heading: "Lista de Posts".to_string(),
        items: vec![
            PostItem { key: 3, title: "c".to_string(), body: "cc".to_string() },
            PostItem { key: 1, title: "a".to_string(), body: "aa".to_string() },
            PostItem { key: 2, title: "b".to_string(), body: "bb".to_string() },
        ],
    };
    assert_eq!(app.view(), expected);
}

#[test]
fn failure_ends_loading_with_one_alert() {
    let mut app = started();
    let step = app.update(Msg::ReceiveResponse(Err(FetchError::Decode)));
    assert_eq!(
        step,
        Step { rerender: true, effect: Effect::Alert("Erro ao carregar posts".to_string()) }
    );
    assert!(!app.loading());
    assert!(app.posts().is_empty());
    assert_eq!(app.view(), empty_list());
}

#[test]
fn render_twice_gives_same_output() {
    let (app, _) = App::create();
    assert_eq!(app.view(), app.view());
    let mut app = started();
    app.update(Msg::ReceiveResponse(Ok(vec![post(7, "t", "b")])));
    let first = app.view();
    let second = app.view();
    assert_eq!(first, second);
}

#[test]
fn fetch_is_asked_for_once() {
    let mut app = started();
    assert_eq!(app.update(Msg::FetchPosts).effect, Effect::Nothing);
    app.update(Msg::ReceiveResponse(Ok(vec![])));
    assert_eq!(app.update(Msg::FetchPosts).effect, Effect::Nothing);
    let mut failed = started();
    failed.update(Msg::ReceiveResponse(Err(FetchError::Transport)));
    assert_eq!(failed.update(Msg::FetchPosts).effect, Effect::Nothing);
}

#[test]
fn completed_state_ignores_later_responses() {
    let mut app = started();
    app.update(Msg::ReceiveResponse(Err(FetchError::Transport)));
    let step = app.update(Msg::ReceiveResponse(Err(FetchError::Transport)));
    assert_eq!(step, Step { rerender: false, effect: Effect::Nothing });
    let step = app.update(Msg::ReceiveResponse(Ok(vec![post(1, "x", "y")])));
    assert_eq!(step, Step { rerender: false, effect: Effect::Nothing });
    assert!(app.posts().is_empty());
    assert_eq!(app.view(), empty_list());
}

#[test]
fn response_right_after_create_ends_loading() {
    let (mut app, _) = App::create();
    let step = app.update(Msg::ReceiveResponse(Ok(vec![post(1, "x", "y")])));
    assert_eq!(step, Step { rerender: true, effect: Effect::Nothing });
    assert!(!app.loading());
    assert_eq!(app.posts(), &vec![post(1, "x", "y")]);
    assert_eq!(app.update(Msg::FetchPosts).effect, Effect::Nothing);
}

#[test]
fn scenarios_right_after_create() {
    let (mut app, _) = App::create();
    app.update(Msg::ReceiveResponse(Ok(vec![post(1, "Hello", "World")])));
    let expected = Html::List {
        heading: "Lista de Posts".to_string(),
        items: vec![PostItem { key: 1, title: "Hello".to_string(), body: "World".to_string() }],
    };
    assert_eq!(app.view(), expected);

    let (mut app, _) = App::create();
    let step = app.update(Msg::ReceiveResponse(Ok(vec![])));
    assert_eq!(step, Step { rerender: true, effect: Effect::Nothing });
    assert_eq!(app.view(), empty_list());

    let (mut app, _) = App::create();
    let step = app.update(Msg::ReceiveResponse(Err(FetchError::Transport)));
    assert_eq!(
        step,
        Step { rerender: true, effect: Effect::Alert("Erro ao carregar posts".to_string()) }
    );
    assert!(!app.loading());
    assert_eq!(app.view(), empty_list());
}

#[test]
fn scenario_single_record() {
    let mut app = started();
    app.update(Msg::ReceiveResponse(Ok(vec![post(1, "Hello", "World")])));
    let expected = Html::List {
        heading: "Lista de Posts".to_string(),
        items: vec![PostItem { key: 1, title: "Hello".to_string(), body: "World".to_string() }],
    };
    assert_eq!(app.view(), expected);
}

#[test]
fn scenario_empty_response() {
    let mut app = started();
    let step = app.update(Msg::ReceiveResponse(Ok(vec![])));
    assert_eq!(step.effect, Effect::Nothing);
    assert_eq!(app.view(), empty_list());
}

#[test]
fn scenario_timeout() {
    let mut app = started();
    let step = app.update(Msg::ReceiveResponse(Err(FetchError::Transport)));
    assert_eq!(step.effect, Effect::Alert("Erro ao carregar posts".to_string()));
    assert_eq!(app.view(), empty_list());
}

#[test]
fn scenario_not_found() {
    let outcome = check_status(404);
    assert_eq!(outcome, Err(FetchError::Status(404)));
    let mut app = started();
    let step = app.update(Msg::ReceiveResponse(Err(FetchError::Status(404))));
    assert_eq!(step.effect, Effect::Alert("Erro ao carregar posts".to_string()));
    assert_eq!(app.view(), empty_list());
}

#[test]
fn empty_success_and_failure_differ_only_by_alert() {
    let mut ok = started();
    let ok_step = ok.update(Msg::ReceiveResponse(Ok(vec![])));
    let mut failed = started();
    let failed_step = failed.update(Msg::ReceiveResponse(Err(FetchError::Decode)));
    assert_eq!(ok.view(), failed.view());
    assert_ne!(ok_step, failed_step);
}

#[test]
fn status_rule_accepts_only_2xx() {
    assert_eq!(check_status(200), Ok(()));
    assert_eq!(check_status(299), Ok(()));
    assert_eq!(check_status(199), Err(FetchError::Status(199)));
    assert_eq!(check_status(300), Err(FetchError::Status(300)));
    assert_eq!(check_status(500), Err(FetchError::Status(500)));
    assert_eq!(check_status(0), Err(FetchError::Status(0)));
}

#[test]
fn view_post_keys_item_by_id() {
    let (app, _) = App::create();
    let p = post(42, "title", "body");
    let item = app.view_post(&p);
    assert_eq!(item, PostItem { key: 42, title: "title".to_string(), body: "body".to_string() });
    assert_eq!(p.id(), 42);
    assert_eq!(p.title(), "title");
    assert_eq!(p.body(), "body");
}
