//! Inline CSS declaration lists.
use crate::text::Textual;
use vstd::prelude::*;

verus! {

/// An inline CSS declaration list, built up one `key:value;` pair at a time.
pub struct Css {
    buf: String,
}

/// The text of one declaration: `key:value;`.
pub open spec fn declaration(key: Seq<char>, value: Seq<char>) -> Seq<char> {
    key + ":"@ + value + ";"@
}

/// The text of a sequence of declarations, in order.
pub open spec fn declarations<K: Textual, W: Textual>(pairs: Seq<(K, W)>) -> Seq<char>
    decreases pairs.len(),
{
    if pairs.len() == 0 {
        Seq::empty()
    } else {
        declarations(pairs.drop_last()) + declaration(
            pairs.last().0.text_view(),
            pairs.last().1.text_view(),
        )
    }
}

impl View for Css {
    type V = Seq<char>;

    closed spec fn view(&self) -> Seq<char> {
        self.buf@
    }
}

impl Css {
    /// An empty declaration list.
    pub fn new() -> (css: Self)
        ensures
            css@ == Seq::<char>::empty(),
    {
        Css { buf: String::new() }
    }

    /// Appends `key:value;`.
    pub fn set<K: Textual, W: Textual>(self, key: K, value: W) -> (css: Self)
        ensures
            css@ == self@ + declaration(key.text_view(), value.text_view()),
    {
        let mut this = self;
        this.set_impl(&key, &value);
        this
    }

    /// Appends `key:value;` when `b` holds, and otherwise leaves the list as it is.
    pub fn setopt<K: Textual, W: Textual>(self, b: bool, key: K, value: W) -> (css: Self)
        ensures
            css@ == if b {
                self@ + declaration(key.text_view(), value.text_view())
            } else {
                self@
            },
    {
        let mut this = self;
        if b {
            this.set_impl(&key, &value);
        }
        this
    }

    /// Appends one declaration for each pair, in order.
    pub fn extend<K: Textual, W: Textual, const N: usize>(self, pairs: [(K, W); N]) -> (css: Self)
        ensures
            css@ == self@ + declarations(pairs@),
    {
        let mut this = self;
        let mut i: usize = 0;
        while i < N
            invariant
                i <= N,
                N == pairs@.len(),
                this@ == self@ + declarations(pairs@.take(i as int)),
            decreases N - i,
        {
            let pair = &pairs[i];
            this.set_impl(&pair.0, &pair.1);
            assert(pairs@.take(i + 1).drop_last() =~= pairs@.take(i as int));
            assert(this@ =~= self@ + declarations(pairs@.take(i + 1)));
            i = i + 1;
        }
        assert(pairs@.take(N as int) =~= pairs@);
        this
    }

    fn set_impl<K: Textual, W: Textual>(&mut self, key: &K, value: &W)
        ensures
            final(self)@ == old(self)@ + declaration(key.text_view(), value.text_view()),
    {
        key.append_to(&mut self.buf);
        self.buf.append(":");
        value.append_to(&mut self.buf);
        self.buf.append(";");
        assert(self.buf@ =~= old(self)@ + declaration(key.text_view(), value.text_view()));
    }
}

impl Textual for Css {
    open spec fn text_view(&self) -> Seq<char> {
        self@
    }

    fn append_to(&self, out: &mut String) {
        out.append(self.buf.as_str());
    }
}

/// Extending by a list of pairs writes the same declarations as extending by
/// its first part and then by the rest.
pub proof fn lemma_declarations_concat<K: Textual, W: Textual>(a: Seq<(K, W)>, b: Seq<(K, W)>)
    ensures
        declarations(a + b) == declarations(a) + declarations(b),
    decreases b.len(),
{
    if b.len() == 0 {
        assert(a + b =~= a);
        assert(declarations(a) + declarations(b) =~= declarations(a));
    } else {
        assert((a + b).drop_last() =~= a + b.drop_last());
        assert((a + b).last() == b.last());
        lemma_declarations_concat(a, b.drop_last());
        assert(declarations(a + b) =~= declarations(a) + declarations(b));
    }
}

} // verus!
