//! What macro expansion needs of the syntax tree: nodes that write
//! themselves out as tokens, and nodes that are made up rather than parsed.

use vstd::prelude::*;
use crate::ast::ident::Ident;
use crate::ast::label::Label;
use crate::error::Error;
use crate::parse::Resolve;
use crate::parser::TokenStream;
use crate::sources::Storage;
use crate::span::Span;
use crate::token::{LitSource, SyntheticId, Token};

verus! {

/// The context of one macro expansion: the span of the macro call, which
/// the nodes made up during the expansion get, and the table that holds
/// their strings.
pub struct MacroContext {
    macro_span: Span,
    storage: Storage,
}

impl MacroContext {
    /// The span of the macro call.
    pub closed spec fn spec_macro_span(&self) -> Span {
        self.macro_span
    }

    /// The synthetic strings that the context holds.
    pub closed spec fn strings(&self) -> Seq<Seq<char>> {
        self.storage@
    }

    /// The context of the expansion of the macro call at `macro_span`,
    /// which adds its strings to `storage`.
    pub fn new(macro_span: Span, storage: Storage) -> (cx: MacroContext)
        ensures
            cx.spec_macro_span() == macro_span,
            cx.strings() == storage@,
    {
        MacroContext { macro_span, storage }
    }

    /// The span of the macro call.
    pub fn macro_span(&self) -> (span: Span)
        ensures
            span == self.spec_macro_span(),
    {
        self.macro_span
    }

    /// Makes up the label `'name`. Its name is stored in the table of
    /// synthetic strings under a fresh identity, and the label is tagged
    /// with that identity and placed at the span of the macro call. In the
    /// context as it then is, the label resolves to `name`.
    pub fn label(&mut self, name: &str) -> (label: Label)
        ensures
            final(self).spec_macro_span() == old(self).spec_macro_span(),
            final(self).strings() == old(self).strings().push(name@),
            label == (Label {
                span: old(self).spec_macro_span(),
                source: LitSource::Synthetic(SyntheticId(old(self).strings().len() as usize)),
            }),
            forall|sources: Seq<Seq<char>>| #[trigger]
                label.spec_resolve(sources, final(self).strings()) == Ok::<Seq<char>, Error>(
                    name@,
                ),
    {
        let id = self.storage.insert_str(name);
        Label { span: self.macro_span, source: LitSource::Synthetic(id) }
    }

    /// Makes up the identifier `name`, in the way of `label`.
    pub fn ident(&mut self, name: &str) -> (ident: Ident)
        ensures
            final(self).spec_macro_span() == old(self).spec_macro_span(),
            final(self).strings() == old(self).strings().push(name@),
            ident == (Ident {
                span: old(self).spec_macro_span(),
                source: LitSource::Synthetic(SyntheticId(old(self).strings().len() as usize)),
            }),
            forall|sources: Seq<Seq<char>>| #[trigger]
                ident.spec_resolve(sources, final(self).strings()) == Ok::<Seq<char>, Error>(
                    name@,
                ),
    {
        let id = self.storage.insert_str(name);
        Ident { span: self.macro_span, source: LitSource::Synthetic(id) }
    }

    /// The table of synthetic strings, to resolve against.
    pub fn storage(&self) -> (storage: &Storage)
        ensures
            storage@ == self.strings(),
    {
        &self.storage
    }

    /// Ends the expansion and hands the table of synthetic strings back.
    pub fn into_storage(self) -> (storage: Storage)
        ensures
            storage@ == self.strings(),
    {
        self.storage
    }
}

/// A node that writes itself out as tokens, so that it can be spliced into
/// what a macro expands to.
pub trait ToTokens {
    /// The tokens of the node, in their order.
    spec fn spec_tokens(&self) -> Seq<Token>;

    /// Appends the tokens of the node to `stream`. The context is left as it
    /// was.
    fn to_tokens(&self, cx: &mut MacroContext, stream: &mut TokenStream)
        ensures
            final(stream)@ == old(stream)@ + self.spec_tokens(),
            *final(cx) == *old(cx),
    ;
}

/// An optional node writes itself out where it is present.
impl<T: ToTokens> ToTokens for Option<T> {
    open spec fn spec_tokens(&self) -> Seq<Token> {
        match self {
            Some(node) => node.spec_tokens(),
            None => Seq::empty(),
        }
    }

    fn to_tokens(&self, cx: &mut MacroContext, stream: &mut TokenStream) {
        match self {
            Some(node) => {
                node.to_tokens(cx, stream);
            },
            None => {
                assert(stream@ + Seq::<Token>::empty() =~= stream@);
            },
        }
    }
}

/// Two nodes in a row write themselves out one after the other.
impl<A: ToTokens, B: ToTokens> ToTokens for (A, B) {
    open spec fn spec_tokens(&self) -> Seq<Token> {
        self.0.spec_tokens() + self.1.spec_tokens()
    }

    fn to_tokens(&self, cx: &mut MacroContext, stream: &mut TokenStream) {
        self.0.to_tokens(cx, stream);
        self.1.to_tokens(cx, stream);
        assert(stream@ =~= old(stream)@ + self.spec_tokens());
    }
}

/// The tokens of the nodes `nodes`, one node after the other.
pub open spec fn spec_tokens_all<T: ToTokens>(nodes: Seq<T>) -> Seq<Token>
    decreases nodes.len(),
{
    if nodes.len() == 0 {
        Seq::empty()
    } else {
        nodes[0].spec_tokens() + spec_tokens_all(nodes.skip(1))
    }
}

/// The tokens of a list and of one more node are those of the list, then
/// those of the node.
pub proof fn lemma_tokens_all_push<T: ToTokens>(nodes: Seq<T>, node: T)
    ensures
        spec_tokens_all(nodes.push(node)) == spec_tokens_all(nodes) + node.spec_tokens(),
    decreases nodes.len(),
{
    if nodes.len() == 0 {
        assert(nodes.push(node).skip(1) =~= Seq::<T>::empty());
        assert(spec_tokens_all(nodes.push(node).skip(1)) =~= Seq::<Token>::empty());
        assert(nodes.push(node)[0] == node);
        assert(spec_tokens_all(nodes.push(node)) =~= node.spec_tokens());
        assert(spec_tokens_all(nodes) + node.spec_tokens() =~= node.spec_tokens());
    } else {
        lemma_tokens_all_push(nodes.skip(1), node);
        assert(nodes.push(node).skip(1) =~= nodes.skip(1).push(node));
        assert(nodes[0].spec_tokens() + (spec_tokens_all(nodes.skip(1)) + node.spec_tokens())
            =~= (nodes[0].spec_tokens() + spec_tokens_all(nodes.skip(1))) + node.spec_tokens());
    }
}

/// A list of nodes writes its nodes out in their order.
impl<T: ToTokens> ToTokens for Vec<T> {
    open spec fn spec_tokens(&self) -> Seq<Token> {
        spec_tokens_all(self@)
    }

    fn to_tokens(&self, cx: &mut MacroContext, stream: &mut TokenStream) {
        let mut i: usize = 0;
        assert(stream@ + spec_tokens_all(self@.take(0)) =~= stream@);
        while i < self.len()
            invariant
                i <= self@.len(),
                stream@ == old(stream)@ + spec_tokens_all(self@.take(i as int)),
                *cx == *old(cx),
            decreases self@.len() - i,
        {
            self[i].to_tokens(cx, stream);
            proof {
                lemma_tokens_all_push(self@.take(i as int), self@[i as int]);
                assert(self@.take(i as int).push(self@[i as int]) =~= self@.take(i + 1));
                assert(stream@ =~= old(stream)@ + spec_tokens_all(self@.take(i + 1)));
            }
            i += 1;
        }
        assert(self@.take(i as int) =~= self@);
    }
}

} // verus!
