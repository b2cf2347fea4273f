use vstd::prelude::*;
use crate::fat_io::FatIOError;
use crate::fat_io::fat_display;

verus! {

/// What a chain of display texts renders to: the outermost text first,
/// then each cause on a line of its own after `caused by: `.
pub open spec fn chain_render(msgs: Seq<Seq<char>>) -> Seq<char>
    decreases msgs.len(),
{
    if msgs.len() == 0 {
        Seq::empty()
    } else if msgs.len() == 1 {
        msgs[0]
    } else {
        chain_render(msgs.drop_last()) + "\ncaused by: "@ + msgs.last()
    }
}

/// A top-level error wrapper for entry points.
///
/// It holds the display texts of an error and of every error that caused
/// it, outermost first, so that rendering can show the whole chain rather
/// than the outermost message alone. The texts are captured where the
/// concrete errors still were; the chain they came from is finite, so the
/// capture terminated and this value is immutable from then on.
pub struct MainError {
    chain: Vec<String>,
}

impl MainError {
    /// The display texts held, outermost first.
    pub closed spec fn chain_spec(&self) -> Seq<Seq<char>> {
        self.chain.deep_view()
    }

    /// Well-formed: at least the outermost error's own text is present.
    pub open spec fn wf(&self) -> bool {
        self.chain_spec().len() >= 1
    }

    /// Lifts a single error, given by its display text, with no cause.
    ///
    /// The conversion is total and keeps the text unchanged.
    pub fn from_message(msg: String) -> (r: MainError)
        ensures
            r.chain_spec() == seq![msg@],
            r.wf(),
    {
        let mut chain: Vec<String> = Vec::new();
        chain.push(msg);
        proof {
            assert(chain.deep_view() =~= seq![msg@]);
        }
        MainError { chain }
    }

    /// Lifts an error and its causes, each given by its display text,
    /// outermost first.
    ///
    /// The conversion is total on every non-empty chain and keeps each
    /// text unchanged; a chain is never empty, since the error being
    /// lifted contributes its own text.
    pub fn from_display_chain(msgs: Vec<String>) -> (r: MainError)
        requires
            msgs@.len() >= 1,
        ensures
            r.chain_spec() == msgs.deep_view(),
            r.wf(),
    {
        MainError { chain: msgs }
    }

    /// Lifts a path-tagged I/O failure: its own display text, then the
    /// underlying failure's text as its sole cause.
    pub fn from_fat_io_err(e: &FatIOError) -> (r: MainError)
        ensures
            r.chain_spec() == seq![
                fat_display(e.file_spec(), e.source_spec()@),
                e.source_spec()@,
            ],
            r.wf(),
    {
        let mut chain: Vec<String> = Vec::new();
        chain.push(e.display_string());
        chain.push(e.source().message().clone());
        proof {
            assert(chain.deep_view() =~= seq![
                fat_display(e.file_spec(), e.source_spec()@),
                e.source_spec()@,
            ]);
        }
        MainError { chain }
    }

    /// Renders the whole chain, as [`chain_render`] says: the outermost
    /// text, then each cause on its own line after `caused by: `.
    pub fn debug_string(&self) -> (r: String)
        ensures
            r@ == chain_render(self.chain_spec()),
    {
        let mut r = String::new();
        let n = self.chain.len();
        let mut i: usize = 0;
        if n > 0 {
            r.append(self.chain[0].as_str());
            i = 1;
            proof {
                assert(self.chain_spec().take(1) =~= seq![self.chain_spec()[0]]);
            }
        }
        while i < n
            invariant
                i <= n,
                n == 0 ==> i == 0,
                n > 0 ==> i >= 1,
                n == self.chain.len(),
                r@ == chain_render(self.chain_spec().take(i as int)),
            decreases n - i,
        {
            r.append("\ncaused by: ");
            r.append(self.chain[i].as_str());
            proof {
                let taken = self.chain_spec().take(i + 1);
                assert(taken.drop_last() =~= self.chain_spec().take(i as int));
                assert(taken.last() == self.chain_spec()[i as int]);
            }
            i += 1;
        }
        proof {
            assert(self.chain_spec().take(n as int) =~= self.chain_spec());
        }
        r
    }
}

/// A single error with no further cause renders to exactly its own
/// display text: one line, nothing added.
pub proof fn lemma_chain_render_single(msg: Seq<char>)
    ensures
        chain_render(seq![msg]) == msg,
{
    assert(seq![msg].len() == 1);
}

/// Lifting an error never loses its display text: the outermost text
/// stands unchanged at the very start of whatever the chain renders to.
pub proof fn lemma_render_keeps_outermost(msgs: Seq<Seq<char>>)
    requires
        msgs.len() >= 1,
    ensures
        chain_render(msgs).len() >= msgs[0].len(),
        chain_render(msgs).subrange(0, msgs[0].len() as int) == msgs[0],
    decreases msgs.len(),
{
    if msgs.len() == 1 {
        assert(chain_render(msgs).subrange(0, msgs[0].len() as int) =~= msgs[0]);
    } else {
        let front = msgs.drop_last();
        lemma_render_keeps_outermost(front);
        assert(front[0] == msgs[0]);
        let head = chain_render(front);
        let whole = chain_render(msgs);
        assert(whole == head + "\ncaused by: "@ + msgs.last());
        assert(whole.subrange(0, msgs[0].len() as int) =~= head.subrange(
            0,
            msgs[0].len() as int,
        ));
    }
}

/// Rendering is a pure function of the chain held: any two renderings of
/// the same wrapper value are the same text, however often it is redone.
pub proof fn lemma_render_idempotent(e: &MainError, r1: Seq<char>, r2: Seq<char>)
    requires
        r1 == chain_render(e.chain_spec()),
        r2 == chain_render(e.chain_spec()),
    ensures
        r1 == r2,
{
}

} // verus!
