//! A BBCode markup builder.
use crate::error::Error;
use crate::text::Textual;
use vstd::prelude::*;

verus! {

/// A BBCode document under construction.
pub struct BBCode {
    buf: String,
}

/// `[name` followed by the tag's arguments and `]`.
pub open spec fn open_tag(name: Seq<char>, args: Seq<char>) -> Seq<char> {
    "["@ + name + args + "]"@
}

/// `[/name]`.
pub open spec fn close_tag(name: Seq<char>) -> Seq<char> {
    "[/"@ + name + "]"@
}

/// The argument text of a tag with one quoted value: `="value"`.
pub open spec fn quoted_arg(value: Seq<char>) -> Seq<char> {
    "=\""@ + value + "\""@
}

/// The argument text of a tag with one bare value: `=value`.
pub open spec fn unquoted_arg(value: Seq<char>) -> Seq<char> {
    "="@ + value
}

/// The text of one named argument: ` key="value"`.
pub open spec fn named_arg(key: Seq<char>, value: Seq<char>) -> Seq<char> {
    " "@ + key + "=\""@ + value + "\""@
}

impl View for BBCode {
    type V = Seq<char>;

    closed spec fn view(&self) -> Seq<char> {
        self.buf@
    }
}

/// One named argument of a tag.
pub trait NamedArg {
    /// The argument's text, ` key="value"`.
    spec fn arg_view(&self) -> Seq<char>;

    /// Appends the argument's text to `out`.
    fn append_arg(&self, out: &mut String)
        ensures
            final(out)@ == old(out)@ + self.arg_view(),
    ;
}

impl<K: Textual, W: Textual> NamedArg for (K, W) {
    open spec fn arg_view(&self) -> Seq<char> {
        named_arg(self.0.text_view(), self.1.text_view())
    }

    fn append_arg(&self, out: &mut String) {
        out.append(" ");
        self.0.append_to(out);
        out.append("=\"");
        self.1.append_to(out);
        out.append("\"");
        assert(out@ =~= old(out)@ + self.arg_view());
    }
}

/// A list of named arguments of a tag, written one after the other.
pub trait BBCodeMultiArgs {
    /// The arguments' text.
    spec fn args_view(&self) -> Seq<char>;

    /// Appends the arguments' text to `out`.
    fn append_args(&self, out: &mut String)
        ensures
            final(out)@ == old(out)@ + self.args_view(),
    ;
}

impl<A: NamedArg> BBCodeMultiArgs for (A,) {
    open spec fn args_view(&self) -> Seq<char> {
        self.0.arg_view()
    }

    fn append_args(&self, out: &mut String) {
        self.0.append_arg(out);
    }
}

impl<A: NamedArg, B: NamedArg> BBCodeMultiArgs for (A, B) {
    open spec fn args_view(&self) -> Seq<char> {
        self.0.arg_view() + self.1.arg_view()
    }

    fn append_args(&self, out: &mut String) {
        self.0.append_arg(out);
        self.1.append_arg(out);
        assert(out@ =~= old(out)@ + self.args_view());
    }
}

impl<A: NamedArg, B: NamedArg, C: NamedArg> BBCodeMultiArgs for (A, B, C) {
    open spec fn args_view(&self) -> Seq<char> {
        self.0.arg_view() + self.1.arg_view() + self.2.arg_view()
    }

    fn append_args(&self, out: &mut String) {
        self.0.append_arg(out);
        self.1.append_arg(out);
        self.2.append_arg(out);
        assert(out@ =~= old(out)@ + self.args_view());
    }
}

impl<A: NamedArg, B: NamedArg, C: NamedArg, D: NamedArg> BBCodeMultiArgs for (A, B, C, D) {
    open spec fn args_view(&self) -> Seq<char> {
        self.0.arg_view() + self.1.arg_view() + self.2.arg_view() + self.3.arg_view()
    }

    fn append_args(&self, out: &mut String) {
        self.0.append_arg(out);
        self.1.append_arg(out);
        self.2.append_arg(out);
        self.3.append_arg(out);
        assert(out@ =~= old(out)@ + self.args_view());
    }
}

impl<A: NamedArg, B: NamedArg, C: NamedArg, D: NamedArg, E: NamedArg> BBCodeMultiArgs for (A, B, C, D, E) {
    open spec fn args_view(&self) -> Seq<char> {
        self.0.arg_view() + self.1.arg_view() + self.2.arg_view() + self.3.arg_view() + self.4.arg_view()
    }

    fn append_args(&self, out: &mut String) {
        self.0.append_arg(out);
        self.1.append_arg(out);
        self.2.append_arg(out);
        self.3.append_arg(out);
        self.4.append_arg(out);
        assert(out@ =~= old(out)@ + self.args_view());
    }
}

impl<A: NamedArg, B: NamedArg, C: NamedArg, D: NamedArg, E: NamedArg, F: NamedArg> BBCodeMultiArgs for (A, B, C, D, E, F) {
    open spec fn args_view(&self) -> Seq<char> {
        self.0.arg_view() + self.1.arg_view() + self.2.arg_view() + self.3.arg_view() + self.4.arg_view() + self.5.arg_view()
    }

    fn append_args(&self, out: &mut String) {
        self.0.append_arg(out);
        self.1.append_arg(out);
        self.2.append_arg(out);
        self.3.append_arg(out);
        self.4.append_arg(out);
        self.5.append_arg(out);
        assert(out@ =~= old(out)@ + self.args_view());
    }
}

impl<A: NamedArg, B: NamedArg, C: NamedArg, D: NamedArg, E: NamedArg, F: NamedArg, G: NamedArg> BBCodeMultiArgs for (A, B, C, D, E, F, G) {
    open spec fn args_view(&self) -> Seq<char> {
        self.0.arg_view() + self.1.arg_view() + self.2.arg_view() + self.3.arg_view() + self.4.arg_view() + self.5.arg_view() + self.6.arg_view()
    }

    fn append_args(&self, out: &mut String) {
        self.0.append_arg(out);
        self.1.append_arg(out);
        self.2.append_arg(out);
        self.3.append_arg(out);
        self.4.append_arg(out);
        self.5.append_arg(out);
        self.6.append_arg(out);
        assert(out@ =~= old(out)@ + self.args_view());
    }
}

impl<A: NamedArg, B: NamedArg, C: NamedArg, D: NamedArg, E: NamedArg, F: NamedArg, G: NamedArg, H: NamedArg> BBCodeMultiArgs for (A, B, C, D, E, F, G, H) {
    open spec fn args_view(&self) -> Seq<char> {
        self.0.arg_view() + self.1.arg_view() + self.2.arg_view() + self.3.arg_view() + self.4.arg_view() + self.5.arg_view() + self.6.arg_view() + self.7.arg_view()
    }

    fn append_args(&self, out: &mut String) {
        self.0.append_arg(out);
        self.1.append_arg(out);
        self.2.append_arg(out);
        self.3.append_arg(out);
        self.4.append_arg(out);
        self.5.append_arg(out);
        self.6.append_arg(out);
        self.7.append_arg(out);
        assert(out@ =~= old(out)@ + self.args_view());
    }
}

impl<A: NamedArg, B: NamedArg, C: NamedArg, D: NamedArg, E: NamedArg, F: NamedArg, G: NamedArg, H: NamedArg, I: NamedArg> BBCodeMultiArgs for (A, B, C, D, E, F, G, H, I) {
    open spec fn args_view(&self) -> Seq<char> {
        self.0.arg_view() + self.1.arg_view() + self.2.arg_view() + self.3.arg_view() + self.4.arg_view() + self.5.arg_view() + self.6.arg_view() + self.7.arg_view() + self.8.arg_view()
    }

    fn append_args(&self, out: &mut String) {
        self.0.append_arg(out);
        self.1.append_arg(out);
        self.2.append_arg(out);
        self.3.append_arg(out);
        self.4.append_arg(out);
        self.5.append_arg(out);
        self.6.append_arg(out);
        self.7.append_arg(out);
        self.8.append_arg(out);
        assert(out@ =~= old(out)@ + self.args_view());
    }
}

impl<A: NamedArg, B: NamedArg, C: NamedArg, D: NamedArg, E: NamedArg, F: NamedArg, G: NamedArg, H: NamedArg, I: NamedArg, J: NamedArg> BBCodeMultiArgs for (A, B, C, D, E, F, G, H, I, J) {
    open spec fn args_view(&self) -> Seq<char> {
        self.0.arg_view() + self.1.arg_view() + self.2.arg_view() + self.3.arg_view() + self.4.arg_view() + self.5.arg_view() + self.6.arg_view() + self.7.arg_view() + self.8.arg_view() + self.9.arg_view()
    }

    fn append_args(&self, out: &mut String) {
        self.0.append_arg(out);
        self.1.append_arg(out);
        self.2.append_arg(out);
        self.3.append_arg(out);
        self.4.append_arg(out);
        self.5.append_arg(out);
        self.6.append_arg(out);
        self.7.append_arg(out);
        self.8.append_arg(out);
        self.9.append_arg(out);
        assert(out@ =~= old(out)@ + self.args_view());
    }
}

impl<A: NamedArg, B: NamedArg, C: NamedArg, D: NamedArg, E: NamedArg, F: NamedArg, G: NamedArg, H: NamedArg, I: NamedArg, J: NamedArg, K: NamedArg> BBCodeMultiArgs for (A, B, C, D, E, F, G, H, I, J, K) {
    open spec fn args_view(&self) -> Seq<char> {
        self.0.arg_view() + self.1.arg_view() + self.2.arg_view() + self.3.arg_view() + self.4.arg_view() + self.5.arg_view() + self.6.arg_view() + self.7.arg_view() + self.8.arg_view() + self.9.arg_view() + self.10.arg_view()
    }

    fn append_args(&self, out: &mut String) {
        self.0.append_arg(out);
        self.1.append_arg(out);
        self.2.append_arg(out);
        self.3.append_arg(out);
        self.4.append_arg(out);
        self.5.append_arg(out);
        self.6.append_arg(out);
        self.7.append_arg(out);
        self.8.append_arg(out);
        self.9.append_arg(out);
        self.10.append_arg(out);
        assert(out@ =~= old(out)@ + self.args_view());
    }
}

/// What a tag's content callback may return, and what the tag then hands back.
pub trait BBCodeCallbackOutput: Sized {
    /// What the tag returns for this outcome, holding the builder.
    type WithThis<'a>;

    /// The outcome lets the builder be handed back.
    spec fn hands_back(self) -> bool;

    /// The builder that `out` holds, where it holds one.
    spec fn builder<'a>(out: Self::WithThis<'a>) -> Option<&'a mut BBCode>;

    /// `out` carries the rest of this outcome unchanged (the same error).
    spec fn keeps_outcome<'a>(self, out: Self::WithThis<'a>) -> bool;

    /// Combines this outcome with the builder.
    fn with_this<'a>(self, this: &'a mut BBCode) -> (out: Self::WithThis<'a>)
        ensures
            self.keeps_outcome(out),
            self.hands_back() <==> Self::builder(out) is Some,
            Self::builder(out) matches Some(b) ==> *b == *old(this) && *final(b) == *final(this),
            Self::builder(out) is None ==> *final(this) == *old(this),
    ;
}

impl BBCodeCallbackOutput for () {
    type WithThis<'a> = &'a mut BBCode;

    open spec fn hands_back(self) -> bool {
        true
    }

    open spec fn builder<'a>(out: Self::WithThis<'a>) -> Option<&'a mut BBCode> {
        Some(out)
    }

    open spec fn keeps_outcome<'a>(self, out: Self::WithThis<'a>) -> bool {
        true
    }

    fn with_this<'a>(self, this: &'a mut BBCode) -> (out: &'a mut BBCode) {
        this
    }
}

impl BBCodeCallbackOutput for Result<(), Error> {
    type WithThis<'a> = Result<&'a mut BBCode, Error>;

    open spec fn hands_back(self) -> bool {
        self is Ok
    }

    open spec fn builder<'a>(out: Self::WithThis<'a>) -> Option<&'a mut BBCode> {
        match out {
            Ok(b) => Some(b),
            Err(_) => None,
        }
    }

    open spec fn keeps_outcome<'a>(self, out: Self::WithThis<'a>) -> bool {
        match (self, out) {
            (Ok(_), Ok(_)) => true,
            (Err(e1), Err(e2)) => e1 == e2,
            _ => false,
        }
    }

    fn with_this<'a>(self, this: &'a mut BBCode) -> (out: Result<&'a mut BBCode, Error>) {
        match self {
            Ok(()) => Ok(this),
            Err(e) => Err(e),
        }
    }
}

/// Named arguments are all written, in order: the argument text of a tuple
/// of up to eleven named arguments is that of the tuple without its last
/// argument, followed by the text of the last one.
pub proof fn lemma_named_args_in_order<A: NamedArg, B: NamedArg, C: NamedArg, D: NamedArg, E: NamedArg, F: NamedArg, G: NamedArg, H: NamedArg, I: NamedArg, J: NamedArg, K: NamedArg>(a: A, b: B, c: C, d: D, e: E, f: F, g: G, h: H, i: I, j: J, k: K)
    ensures
        (a,).args_view() == a.arg_view(),
        (a, b).args_view() == (a,).args_view() + b.arg_view(),
        (a, b, c).args_view() == (a, b).args_view() + c.arg_view(),
        (a, b, c, d).args_view() == (a, b, c).args_view() + d.arg_view(),
        (a, b, c, d, e).args_view() == (a, b, c, d).args_view() + e.arg_view(),
        (a, b, c, d, e, f).args_view() == (a, b, c, d, e).args_view() + f.arg_view(),
        (a, b, c, d, e, f, g).args_view() == (a, b, c, d, e, f).args_view() + g.arg_view(),
        (a, b, c, d, e, f, g, h).args_view() == (a, b, c, d, e, f, g).args_view() + h.arg_view(),
        (a, b, c, d, e, f, g, h, i).args_view() == (a, b, c, d, e, f, g, h).args_view() + i.arg_view(),
        (a, b, c, d, e, f, g, h, i, j).args_view() == (a, b, c, d, e, f, g, h, i).args_view() + j.arg_view(),
        (a, b, c, d, e, f, g, h, i, j, k).args_view() == (a, b, c, d, e, f, g, h, i, j).args_view() + k.arg_view(),
{
}

/// One named argument is written as a space, its key, `="`, its value and `"`.
pub proof fn lemma_named_arg_text<K: Textual, W: Textual>(key: K, value: W)
    ensures
        (key, value).arg_view() == " "@ + key.text_view() + "=\""@ + value.text_view() + "\""@,
{
}

impl BBCode {
    /// An empty document.
    pub fn new() -> (bb: Self)
        ensures
            bb@ == Seq::<char>::empty(),
    {
        BBCode { buf: String::new() }
    }

    /// Writes `[name]`, lets `f` write the tag's content, then writes `[/name]`;
    /// hands the builder back through what `f` returned.
    pub fn tag<N: Textual, T: BBCodeCallbackOutput, F: FnOnce(&mut BBCode) -> T>(
        &mut self,
        name: N,
        f: F,
    ) -> (out: T::WithThis<'_>)
        requires
            forall|b: &mut BBCode| f.requires((b,)),
        ensures
            exists|m: &mut BBCode, ret: T|
                {
                    &&& f.ensures((m,), ret)
                    &&& (*m)@ == old(self)@ + open_tag(name.text_view(), Seq::empty())
                    &&& ret.keeps_outcome(out)
                    &&& ret.hands_back() <==> T::builder(out) is Some
                    &&& T::builder(out) matches Some(b) ==> (*b)@ == (*final(m))@ + close_tag(
                        name.text_view(),
                    ) && *final(b) == *final(self)
                    &&& T::builder(out) is None ==> final(self)@ == (*final(m))@ + close_tag(
                        name.text_view(),
                    )
                },
    {
        let args = String::new();
        self.tag_impl(&name, &args, f)
    }

    /// Like `tag`, with one quoted value: `[name="value"]`.
    pub fn tag_with<N: Textual, W: Textual, T: BBCodeCallbackOutput, F: FnOnce(&mut BBCode) -> T>(
        &mut self,
        name: N,
        value: W,
        f: F,
    ) -> (out: T::WithThis<'_>)
        requires
            forall|b: &mut BBCode| f.requires((b,)),
        ensures
            exists|m: &mut BBCode, ret: T|
                {
                    &&& f.ensures((m,), ret)
                    &&& (*m)@ == old(self)@ + open_tag(name.text_view(), quoted_arg(value.text_view()))
                    &&& ret.keeps_outcome(out)
                    &&& ret.hands_back() <==> T::builder(out) is Some
                    &&& T::builder(out) matches Some(b) ==> (*b)@ == (*final(m))@ + close_tag(
                        name.text_view(),
                    ) && *final(b) == *final(self)
                    &&& T::builder(out) is None ==> final(self)@ == (*final(m))@ + close_tag(
                        name.text_view(),
                    )
                },
    {
        let mut args = String::new();
        args.append("=\"");
        value.append_to(&mut args);
        args.append("\"");
        assert(args@ =~= quoted_arg(value.text_view()));
        self.tag_impl(&name, &args, f)
    }

    /// Like `tag`, with one bare value: `[name=value]`.
    pub fn tag_with_unquoted<
        N: Textual,
        W: Textual,
        T: BBCodeCallbackOutput,
        F: FnOnce(&mut BBCode) -> T,
    >(&mut self, name: N, value: W, f: F) -> (out: T::WithThis<'_>)
        requires
            forall|b: &mut BBCode| f.requires((b,)),
        ensures
            exists|m: &mut BBCode, ret: T|
                {
                    &&& f.ensures((m,), ret)
                    &&& (*m)@ == old(self)@ + open_tag(name.text_view(), unquoted_arg(value.text_view()))
                    &&& ret.keeps_outcome(out)
                    &&& ret.hands_back() <==> T::builder(out) is Some
                    &&& T::builder(out) matches Some(b) ==> (*b)@ == (*final(m))@ + close_tag(
                        name.text_view(),
                    ) && *final(b) == *final(self)
                    &&& T::builder(out) is None ==> final(self)@ == (*final(m))@ + close_tag(
                        name.text_view(),
                    )
                },
    {
        let mut args = String::new();
        args.append("=");
        value.append_to(&mut args);
        assert(args@ =~= unquoted_arg(value.text_view()));
        self.tag_impl(&name, &args, f)
    }

    /// Like `tag`, with named arguments: `[name k1="v1" k2="v2"]`.
    pub fn tag_with_multi<
        N: Textual,
        M: BBCodeMultiArgs,
        T: BBCodeCallbackOutput,
        F: FnOnce(&mut BBCode) -> T,
    >(&mut self, name: N, value: M, f: F) -> (out: T::WithThis<'_>)
        requires
            forall|b: &mut BBCode| f.requires((b,)),
        ensures
            exists|m: &mut BBCode, ret: T|
                {
                    &&& f.ensures((m,), ret)
                    &&& (*m)@ == old(self)@ + open_tag(name.text_view(), value.args_view())
                    &&& ret.keeps_outcome(out)
                    &&& ret.hands_back() <==> T::builder(out) is Some
                    &&& T::builder(out) matches Some(b) ==> (*b)@ == (*final(m))@ + close_tag(
                        name.text_view(),
                    ) && *final(b) == *final(self)
                    &&& T::builder(out) is None ==> final(self)@ == (*final(m))@ + close_tag(
                        name.text_view(),
                    )
                },
    {
        let mut args = String::new();
        value.append_args(&mut args);
        assert(args@ =~= value.args_view());
        self.tag_impl(&name, &args, f)
    }
    /// Appends text.
    pub fn text<W: Textual>(&mut self, text: W) -> (r: &mut Self)
        ensures
            (*r)@ == old(self)@ + text.text_view(),
            *final(self) == *final(r),
    {
        text.append_to(&mut self.buf);
        self
    }

    fn tag_impl<N: Textual, T: BBCodeCallbackOutput, F: FnOnce(&mut BBCode) -> T>(
        &mut self,
        name: &N,
        args: &String,
        f: F,
    ) -> (out: T::WithThis<'_>)
        requires
            forall|b: &mut BBCode| f.requires((b,)),
        ensures
            exists|m: &mut BBCode, ret: T|
                {
                    &&& f.ensures((m,), ret)
                    &&& (*m)@ == old(self)@ + open_tag(name.text_view(), args@)
                    &&& ret.keeps_outcome(out)
                    &&& ret.hands_back() <==> T::builder(out) is Some
                    &&& T::builder(out) matches Some(b) ==> (*b)@ == (*final(m))@ + close_tag(
                        name.text_view(),
                    ) && *final(b) == *final(self)
                    &&& T::builder(out) is None ==> final(self)@ == (*final(m))@ + close_tag(
                        name.text_view(),
                    )
                },
    {
        self.buf.append("[");
        name.append_to(&mut self.buf);
        self.buf.append(args.as_str());
        self.buf.append("]");
        let ghost before = *self;
        assert(before@ =~= old(self)@ + open_tag(name.text_view(), args@));
        let ret = f(self);
        let ghost mid = *self;
        assert(exists|m: &mut BBCode| f.ensures((m,), ret) && *m == before && *final(m) == mid);
        let ghost m = choose|m: &mut BBCode|
            f.ensures((m,), ret) && *m == before && *final(m) == mid;
        self.buf.append("[/");
        name.append_to(&mut self.buf);
        self.buf.append("]");
        assert(self@ =~= (*final(m))@ + close_tag(name.text_view()));
        ret.with_this(self)
    }

    /// The document's text so far.
    pub fn as_text(&self) -> (s: String)
        ensures
            s@ == self@,
    {
        self.buf.clone()
    }
}

impl Textual for BBCode {
    open spec fn text_view(&self) -> Seq<char> {
        self@
    }

    fn append_to(&self, out: &mut String) {
        out.append(self.buf.as_str());
    }
}

} // verus!
