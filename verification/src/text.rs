//! Text being assembled: the output buffer, and joining pieces of text.

use vstd::prelude::*;

verus! {

/// The texts that a list of strings holds.
pub open spec fn texts(strings: Seq<String>) -> Seq<Seq<char>> {
    strings.map_values(|s: String| s@)
}

/// The views of a list of values.
pub open spec fn views<T: View>(values: Seq<T>) -> Seq<T::V> {
    values.map_values(|value: T| value@)
}

/// `parts` one after the other, with `separator` between every two neighbours.
pub open spec fn joined(parts: Seq<Seq<char>>, separator: Seq<char>) -> Seq<char>
    decreases parts.len(),
{
    if parts.len() == 0 {
        Seq::empty()
    } else if parts.len() == 1 {
        parts[0]
    } else {
        joined(parts.drop_last(), separator) + separator + parts.last()
    }
}

/// Joins `parts`, with `separator` between every two neighbours.
pub fn join(parts: &Vec<String>, separator: &str) -> (all: String)
    ensures
        all@ == joined(texts(parts@), separator@),
{
    let mut all = String::new();
    let ghost pieces = texts(parts@);
    for i in 0..parts.len()
        invariant
            pieces == texts(parts@),
            all@ == joined(pieces.take(i as int), separator@),
    {
        if i > 0 {
            all.append(separator);
        }
        all.append(parts[i].as_str());
        proof {
            let upto = pieces.take(i + 1);
            assert(upto.drop_last() =~= pieces.take(i as int));
            if i == 0 {
                assert(all@ =~= upto[0]);
            }
        }
    }
    assert(pieces.take(pieces.len() as int) =~= pieces);
    all
}

/// What `text` makes of each item, one after the other.
pub open spec fn concat_map<T>(items: Seq<T>, text: spec_fn(T) -> Seq<char>) -> Seq<char> {
    items.map_values(text).flatten()
}

/// Nothing is written for no items.
pub proof fn lemma_concat_map_none<T>(items: Seq<T>, text: spec_fn(T) -> Seq<char>)
    ensures
        concat_map(items.take(0), text) == Seq::<char>::empty(),
{
}

/// One more item adds its own text at the end.
pub proof fn lemma_concat_map_step<T>(items: Seq<T>, i: int, text: spec_fn(T) -> Seq<char>)
    requires
        0 <= i < items.len(),
    ensures
        concat_map(items.take(i + 1), text) == concat_map(items.take(i), text) + text(items[i]),
{
    let before = items.take(i).map_values(text);
    before.lemma_flatten_push(text(items[i]));
    assert(items.take(i + 1).map_values(text) =~= before.push(text(items[i])));
}

/// Appending one text after another is appending both at once.
pub proof fn lemma_append_assoc(a: Seq<char>, b: Seq<char>, c: Seq<char>)
    ensures
        a + b + c == a + (b + c),
{
    assert(a + b + c =~= a + (b + c));
}

/// What a text starts with it still starts with when more is appended.
pub broadcast proof fn lemma_prefix_append(start: Seq<char>, text: Seq<char>, more: Seq<char>)
    requires
        start.is_prefix_of(text),
    ensures
        #[trigger] start.is_prefix_of(text + more),
{
    assert((text + more).subrange(0, start.len() as int) =~= text.subrange(
        0,
        start.len() as int,
    ));
}

/// A text starts with itself.
pub proof fn lemma_prefix_itself(text: Seq<char>)
    ensures
        text.is_prefix_of(text),
{
    assert(text.subrange(0, text.len() as int) =~= text);
}

/// The buffer that generated code is written to.
///
/// Every line that this crate writes carries its own indentation.
pub struct Indenter {
    code: String,
}

impl View for Indenter {
    type V = Seq<char>;

    closed spec fn view(&self) -> Seq<char> {
        self.code@
    }
}

impl Indenter {
    /// An empty buffer.
    pub fn new() -> (out: Self)
        ensures
            out@ == Seq::<char>::empty(),
    {
        Indenter { code: String::new() }
    }

    /// Appends `text`.
    pub fn write(&mut self, text: &str)
        ensures
            final(self)@ == old(self)@ + text@,
    {
        self.code.append(text);
    }

    /// The code written so far.
    pub fn into_inner(self) -> (code: String)
        ensures
            code@ == self@,
    {
        self.code
    }
}

} // verus!
