//! The view state controller: the application state, the messages it reacts
//! to, the effects it asks its host to perform, and the render function.
use vstd::prelude::*;

use crate::fetch::FetchError;
use crate::html::{Html, HtmlModel, ItemModel, PostItem};
use crate::post::{posts_model, Post, PostModel};

verus! {

/// Text of the loading indicator.
pub open spec fn loading_text() -> Seq<char> {
    "Carregando..."@
}

/// Heading above the list.
pub open spec fn heading_text() -> Seq<char> {
    "Lista de Posts"@
}

/// Message of the alert shown when the fetch fails.
pub open spec fn alert_text() -> Seq<char> {
    "Erro ao carregar posts"@
}

/// The model of the application state.
pub ghost struct AppModel {
    pub posts: Seq<PostModel>,
    pub loading: bool,
    pub fetch_started: bool,
}

/// A message delivered to the controller.
#[derive(Debug, PartialEq, Eq)]
pub enum Msg {
    /// Start the one fetch; sent by `create`.
    FetchPosts,
    /// The fetch completed, with the records in server order or the failure.
    ReceiveResponse(Result<Vec<Post>, FetchError>),
}

pub ghost enum Event {
    FetchPosts,
    ReceiveResponse(Result<Seq<PostModel>, FetchError>),
}

impl View for Msg {
    type V = Event;

    open spec fn view(&self) -> Event {
        match self {
            Msg::FetchPosts => Event::FetchPosts,
            Msg::ReceiveResponse(Ok(posts)) => Event::ReceiveResponse(Ok(posts_model(posts@))),
            Msg::ReceiveResponse(Err(e)) => Event::ReceiveResponse(Err(*e)),
        }
    }
}

/// What the host must do after a message was handled.
#[derive(Debug, Clone, PartialEq, Eq)]
pub enum Effect {
    Nothing,
    /// Start the fetch, and deliver its outcome as `Msg::ReceiveResponse`.
    Fetch,
    /// Present a blocking alert with this message.
    Alert(String),
}

pub ghost enum EffectModel {
    Nothing,
    Fetch,
    Alert(Seq<char>),
}

impl View for Effect {
    type V = EffectModel;

    open spec fn view(&self) -> EffectModel {
        match self {
            Effect::Nothing => EffectModel::Nothing,
            Effect::Fetch => EffectModel::Fetch,
            Effect::Alert(m) => EffectModel::Alert(m@),
        }
    }
}

/// The result of handling one message: whether the view must be rendered
/// again, and the effect to perform.
#[derive(Debug, Clone, PartialEq, Eq)]
pub struct Step {
    pub rerender: bool,
    pub effect: Effect,
}

pub ghost struct StepModel {
    pub rerender: bool,
    pub effect: EffectModel,
}

impl View for Step {
    type V = StepModel;

    open spec fn view(&self) -> StepModel {
        StepModel { rerender: self.rerender, effect: self.effect@ }
    }
}

/// The state right after creation: loading, no records, no fetch started.
pub open spec fn initial_model() -> AppModel {
    AppModel { posts: Seq::empty(), loading: true, fetch_started: false }
}

/// The state reachable invariant: records stay empty while loading, and a
/// completion is processed only after the fetch was started.
pub open spec fn model_wf(s: AppModel) -> bool {
    &&& s.loading ==> s.posts.len() == 0
    &&& !s.fetch_started ==> s.loading
}

/// A completion is processed while loading; the first one ends loading.
pub open spec fn awaiting_response(s: AppModel) -> bool {
    s.loading
}

/// The state after handling `e` in state `s`.
pub open spec fn next_model(s: AppModel, e: Event) -> AppModel {
    match e {
        Event::FetchPosts => AppModel { posts: s.posts, loading: s.loading, fetch_started: true },
        Event::ReceiveResponse(outcome) => {
            if awaiting_response(s) {
                match outcome {
                    Ok(posts) => AppModel { posts, loading: false, fetch_started: true },
                    Err(_) => AppModel { posts: s.posts, loading: false, fetch_started: true },
                }
            } else {
                s
            }
        },
    }
}

/// What handling `e` in state `s` asks of the host.
pub open spec fn step_model(s: AppModel, e: Event) -> StepModel {
    match e {
        Event::FetchPosts => StepModel {
            rerender: false,
            effect: if s.fetch_started {
                EffectModel::Nothing
            } else {
                EffectModel::Fetch
            },
        },
        Event::ReceiveResponse(outcome) => {
            if awaiting_response(s) {
                StepModel {
                    rerender: true,
                    effect: match outcome {
                        Ok(_) => EffectModel::Nothing,
                        Err(_) => EffectModel::Alert(alert_text()),
                    },
                }
            } else {
                StepModel { rerender: false, effect: EffectModel::Nothing }
            }
        },
    }
}

/// The rendered item of one record.
pub open spec fn item_of(p: PostModel) -> ItemModel {
    ItemModel { key: p.id, title: p.title, body: p.body }
}

/// The render function on models.
pub open spec fn render(s: AppModel) -> HtmlModel {
    if s.loading {
        HtmlModel::Loading { text: loading_text() }
    } else {
        HtmlModel::List { heading: heading_text(), items: s.posts.map_values(|p: PostModel| item_of(p)) }
    }
}

/// The application state: the records shown and the loading flag.
pub struct App {
    posts: Vec<Post>,
    loading: bool,
    fetch_started: bool,
}

impl App {
    /// The model of this state.
    pub closed spec fn model(&self) -> AppModel {
        AppModel {
            posts: posts_model(self.posts@),
            loading: self.loading,
            fetch_started: self.fetch_started,
        }
    }

    /// Holds of every state: see `model_wf`.
    #[verifier::type_invariant]
    closed spec fn inv(&self) -> bool {
        model_wf(self.model())
    }

    /// Creates the state, loading with no records, and the message that
    /// starts the one fetch.
    pub fn create() -> (r: (App, Msg))
        ensures
            model_wf(r.0.model()),
            r.0.model() == initial_model(),
            r.1@ == Event::FetchPosts,
    {
        let app = App { posts: Vec::new(), loading: true, fetch_started: false };
        proof {
            assert(posts_model(app.posts@) =~= Seq::<PostModel>::empty());
        }
        (app, Msg::FetchPosts)
    }

    /// Handles one message. Starting the fetch is asked for once; the first
    /// completion ends loading, keeps the records on
    /// success and asks for the alert on failure; every other message leaves
    /// the state as it is.
    pub fn update(&mut self, msg: Msg) -> (r: Step)
        ensures
            model_wf(final(self).model()),
            final(self).model() == next_model(old(self).model(), msg@),
            r@ == step_model(old(self).model(), msg@),
    {
        proof {
            use_type_invariant(&*self);
        }
        match msg {
            Msg::FetchPosts => {
                if self.fetch_started {
                    Step { rerender: false, effect: Effect::Nothing }
                } else {
                    self.fetch_started = true;
                    Step { rerender: false, effect: Effect::Fetch }
                }
            },
            Msg::ReceiveResponse(response) => {
                if !self.loading {
                    return Step { rerender: false, effect: Effect::Nothing };
                }
                self.fetch_started = true;
                self.loading = false;
                let effect = match response {
                    Ok(posts) => {
                        self.posts = posts;
                        Effect::Nothing
                    },
                    Err(_) => Effect::Alert(String::from_str("Erro ao carregar posts")),
                };
                Step { rerender: true, effect }
            },
        }
    }

    /// Renders the state: the loading indicator while loading, else the
    /// heading and one item per record, in order.
    pub fn view(&self) -> (r: Html)
        ensures
            r@ == render(self.model()),
    {
        if self.loading {
            Html::Loading { text: String::from_str("Carregando...") }
        } else {
            let mut items: Vec<PostItem> = Vec::new();
            let mut i: usize = 0;
            while i < self.posts.len()
                invariant
                    i <= self.posts@.len(),
                    items@.len() == i,
                    forall|j: int| 0 <= j < i ==> #[trigger] items@[j]@ == item_of(self.posts@[j]@),
                decreases self.posts@.len() - i,
            {
                let item = self.view_post(&self.posts[i]);
                items.push(item);
                i = i + 1;
            }
            proof {
                assert(items@.map_values(|it: PostItem| it@) =~= self.model().posts.map_values(
                    |p: PostModel| item_of(p),
                ));
            }
            Html::List { heading: String::from_str("Lista de Posts"), items }
        }
    }

    /// Renders one record as a list item keyed by its id.
    pub fn view_post(&self, post: &Post) -> (r: PostItem)
        ensures
            r@ == item_of(post@),
    {
        PostItem { key: post.id(), title: post.title().clone(), body: post.body().clone() }
    }

    /// Whether the fetch has not completed yet.
    pub fn loading(&self) -> (r: bool)
        ensures
            r == self.model().loading,
    {
        self.loading
    }

    /// The records shown, in server order.
    pub fn posts(&self) -> (r: &Vec<Post>)
        ensures
            posts_model(r@) == self.model().posts,
    {
        &self.posts
    }
}

} // verus!
