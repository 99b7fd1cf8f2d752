//! Properties of the controller over whole runs, proved from the model.
use vstd::prelude::*;

use crate::component::{
    alert_text, heading_text, initial_model, item_of, loading_text, model_wf, next_model, render,
    step_model, AppModel, EffectModel, Event, StepModel,
};
use crate::fetch::FetchError;
use crate::html::{keys_unique, HtmlModel};
use crate::post::{ids_unique, PostModel};

verus! {

/// The number of fetches that handling `events` in order, from `s`, asks for.
pub open spec fn fetch_count(s: AppModel, events: Seq<Event>) -> nat
    decreases events.len(),
{
    if events.len() == 0 {
        0
    } else {
        let here: nat = if step_model(s, events[0]).effect is Fetch {
            1
        } else {
            0
        };
        here + fetch_count(next_model(s, events[0]), events.drop_first())
    }
}

/// The number of alerts that handling `events` in order, from `s`, asks for.
pub open spec fn alert_count(s: AppModel, events: Seq<Event>) -> nat
    decreases events.len(),
{
    if events.len() == 0 {
        0
    } else {
        let here: nat = if step_model(s, events[0]).effect is Alert {
            1
        } else {
            0
        };
        here + alert_count(next_model(s, events[0]), events.drop_first())
    }
}

/// The state after handling `events` in order, from `s`.
pub open spec fn run(s: AppModel, events: Seq<Event>) -> AppModel
    decreases events.len(),
{
    if events.len() == 0 {
        s
    } else {
        run(next_model(s, events[0]), events.drop_first())
    }
}

/// Right after creation the state is loading with no records, and it renders
/// as the loading indicator and nothing else.
pub proof fn initial_state_renders_loading()
    ensures
        model_wf(initial_model()),
        initial_model().loading,
        initial_model().posts.len() == 0,
        render(initial_model()) == (HtmlModel::Loading { text: loading_text() }),
{
}

/// In any loading state (right after creation, whether or not the fetch
/// message was handled), a successful completion with `posts` ends loading,
/// the records become `posts` in server order, and the view is the heading
/// with one item per record carrying its id, title and body; distinct ids
/// give distinct keys.
pub proof fn success_path(s: AppModel, posts: Seq<PostModel>)
    requires
        model_wf(s),
        s.loading,
    ensures
        ({
            let t = next_model(s, Event::ReceiveResponse(Ok(posts)));
            &&& model_wf(t)
            &&& !t.loading
            &&& t.posts == posts
            &&& step_model(s, Event::ReceiveResponse(Ok(posts))) == (StepModel {
                rerender: true,
                effect: EffectModel::Nothing,
            })
            &&& render(t) matches HtmlModel::List { heading, items } && heading == heading_text()
                && items.len() == posts.len() && (forall|i: int|
                0 <= i < posts.len() ==> #[trigger] items[i] == item_of(posts[i])) && (ids_unique(
                posts,
            ) ==> keys_unique(items))
        }),
{
    let t = next_model(s, Event::ReceiveResponse(Ok(posts)));
    let items = posts.map_values(|p: PostModel| item_of(p));
    assert(render(t) == HtmlModel::List { heading: heading_text(), items });
    if ids_unique(posts) {
        assert forall|i: int, j: int|
            0 <= i < items.len() && 0 <= j < items.len() && i != j implies #[trigger] items[i].key
            != #[trigger] items[j].key by {
            assert(posts[i].id != posts[j].id);
        }
    }
}

/// In any loading state, a failed completion, for any reason, ends loading,
/// leaves no records, renders as the heading over an empty list, and asks
/// for the alert exactly once, whatever messages follow.
pub proof fn failure_path(s: AppModel, e: FetchError, rest: Seq<Event>)
    requires
        model_wf(s),
        s.loading,
    ensures
        ({
            let t = next_model(s, Event::ReceiveResponse(Err(e)));
            &&& model_wf(t)
            &&& !t.loading
            &&& t.posts.len() == 0
            &&& step_model(s, Event::ReceiveResponse(Err(e))) == (StepModel {
                rerender: true,
                effect: EffectModel::Alert(alert_text()),
            })
            &&& render(t) == (HtmlModel::List { heading: heading_text(), items: Seq::empty() })
        }),
        alert_count(s, seq![Event::ReceiveResponse(Err(e))] + rest) == 1,
{
    let t = next_model(s, Event::ReceiveResponse(Err(e)));
    assert(t.posts.map_values(|p: PostModel| item_of(p)) =~= Seq::<
        crate::html::ItemModel,
    >::empty());
    let events = seq![Event::ReceiveResponse(Err(e))] + rest;
    assert(events.drop_first() =~= rest);
    alerts_bounded_by_loading(t, rest);
}

/// Alerts are asked for at most once, and only while loading.
pub proof fn alerts_bounded_by_loading(s: AppModel, events: Seq<Event>)
    ensures
        alert_count(s, events) <= (if s.loading {
            1nat
        } else {
            0nat
        }),
    decreases events.len(),
{
    if events.len() > 0 {
        alerts_bounded_by_loading(next_model(s, events[0]), events.drop_first());
    }
}

/// Fetches are asked for at most once, and only before the fetch started.
pub proof fn fetches_bounded_by_start(s: AppModel, events: Seq<Event>)
    ensures
        fetch_count(s, events) <= (if s.fetch_started {
            0nat
        } else {
            1nat
        }),
    decreases events.len(),
{
    if events.len() > 0 {
        fetches_bounded_by_start(next_model(s, events[0]), events.drop_first());
    }
}

/// Over the application's life the fetch is asked for exactly once: the
/// message that creation sends starts it, and no later message, whatever the
/// outcome, starts another. No run asks for more than one alert.
pub proof fn single_fetch(rest: Seq<Event>)
    ensures
        fetch_count(initial_model(), seq![Event::FetchPosts] + rest) == 1,
        alert_count(initial_model(), seq![Event::FetchPosts] + rest) <= 1,
{
    let events = seq![Event::FetchPosts] + rest;
    assert(events.drop_first() =~= rest);
    fetches_bounded_by_start(next_model(initial_model(), Event::FetchPosts), rest);
    alerts_bounded_by_loading(initial_model(), events);
}

/// Once a completion was handled the state is final: no message changes it
/// or asks for an effect.
pub proof fn completed_state_is_final(s: AppModel, events: Seq<Event>)
    requires
        model_wf(s),
        !s.loading,
    ensures
        run(s, events) == s,
        fetch_count(s, events) == 0,
        alert_count(s, events) == 0,
    decreases events.len(),
{
    if events.len() > 0 {
        assert(next_model(s, events[0]) == s);
        completed_state_is_final(s, events.drop_first());
    }
}

} // verus!
