//! The structural output of rendering, and its model.
use vstd::prelude::*;

verus! {

/// One rendered record: a list item keyed by the record's id, with the title
/// as a sub-heading and the body as text.
#[derive(Debug, Clone, PartialEq, Eq)]
pub struct PostItem {
    pub key: u32,
    pub title: String,
    pub body: String,
}

pub ghost struct ItemModel {
    pub key: u32,
    pub title: Seq<char>,
    pub body: Seq<char>,
}

impl View for PostItem {
    type V = ItemModel;

    open spec fn view(&self) -> ItemModel {
        ItemModel { key: self.key, title: self.title@, body: self.body@ }
    }
}

/// The rendered view: either a loading indicator (a paragraph of text), or a
/// container with a heading followed by a list of items.
#[derive(Debug, Clone, PartialEq, Eq)]
pub enum Html {
    Loading { text: String },
    List { heading: String, items: Vec<PostItem> },
}

pub ghost enum HtmlModel {
    Loading { text: Seq<char> },
    List { heading: Seq<char>, items: Seq<ItemModel> },
}

impl View for Html {
    type V = HtmlModel;

    open spec fn view(&self) -> HtmlModel {
        match self {
            Html::Loading { text } => HtmlModel::Loading { text: text@ },
            Html::List { heading, items } => HtmlModel::List {
                heading: heading@,
                items: items@.map_values(|i: PostItem| i@),
            },
        }
    }
}

/// Every key of `items` is used once.
pub open spec fn keys_unique(items: Seq<ItemModel>) -> bool {
    forall|i: int, j: int|
        0 <= i < items.len() && 0 <= j < items.len() && i != j ==> #[trigger] items[i].key
            != #[trigger] items[j].key
}

} // verus!
