use vstd::prelude::*;

verus! {

/// A value in a JSON object that the client sends or hands to a handler.
#[derive(Debug, Clone)]
pub enum Field {
    /// JSON `null`.
    Null,
    /// A JSON string.
    Text(String),
    /// A JSON array of strings.
    TextList(Vec<String>),
    /// A JSON value received from the server, passed on unchanged.
    Json(serde_json::Value),
}

/// What a [`Field`] holds.
pub enum FieldView {
    Null,
    Text(Seq<char>),
    TextList(Seq<Seq<char>>),
    Json(serde_json::Value),
}

impl View for Field {
    type V = FieldView;

    open spec fn view(&self) -> FieldView {
        match self {
            Field::Null => FieldView::Null,
            Field::Text(s) => FieldView::Text(s@),
            Field::TextList(v) => FieldView::TextList(v@.map_values(|s: String| s@)),
            Field::Json(v) => FieldView::Json(*v),
        }
    }
}

/// A JSON object, as its members in the order they were added. Every
/// object that the library builds has distinct keys.
#[derive(Debug, Clone)]
pub struct Document {
    pub entries: Vec<(String, Field)>,
}

/// The members of a document: key and value.
pub type DocumentView = Seq<(Seq<char>, FieldView)>;

impl View for Document {
    type V = DocumentView;

    open spec fn view(&self) -> DocumentView {
        self.entries@.map_values(|e: (String, Field)| (e.0@, e.1@))
    }
}

/// A string field, or `null` when there is no string.
pub open spec fn text_or_null(o: Option<Seq<char>>) -> FieldView {
    match o {
        Some(s) => FieldView::Text(s),
        None => FieldView::Null,
    }
}

/// The field that stands for an optional string: the string, or `null`.
pub fn text_or_null_field(o: Option<String>) -> (r: Field)
    ensures
        r@ == text_or_null(match o {
            Some(s) => Some(s@),
            None => None,
        }),
{
    match o {
        Some(s) => Field::Text(s),
        None => Field::Null,
    }
}

impl Document {
    /// An object with no members.
    pub fn new() -> (r: Document)
        ensures
            r@ == Seq::<(Seq<char>, FieldView)>::empty(),
    {
        let r = Document { entries: Vec::new() };
        assert(r@ =~= Seq::<(Seq<char>, FieldView)>::empty());
        r
    }

    /// Adds the member `key` with the value `value` at the end.
    pub fn push(&mut self, key: &str, value: Field)
        ensures
            final(self)@ == old(self)@.push((key@, value@)),
    {
        let k: String = key.to_owned();
        self.entries.push((k, value));
        assert(self@ =~= old(self)@.push((key@, value@)));
    }
}

} // verus!
