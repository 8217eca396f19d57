use vstd::prelude::*;
use crate::matchers::{match_title, matched_title};
use crate::song_title::MAX_WINDOWS;

verus! {

/// What a window search asks its driver to do next.
pub enum CrawlStep {
    /// List the children of this window, in stacking order.
    QueryTree(u32),
    /// Fetch the title and the class of this window.
    FetchProperties(u32),
    /// The search is over, with the cleaned title it found, if any.
    Finished(Option<String>),
}

/// What the driver brings back from the window service.
pub enum CrawlReply {
    /// The children of the window asked about.
    Children(Vec<u32>),
    /// The window's tree could not be listed.
    TreeFailed,
    /// The window's title (absent where the fetch failed or the bytes are not
    /// UTF-8) and its class (empty where the fetch or the decoding failed).
    Properties { title: Option<String>, class: String },
}

#[derive(Clone, Copy, Debug, PartialEq, Eq, Structural)]
pub enum Phase {
    AwaitTree,
    AwaitProperties,
    Done,
}

/// A depth-first, pre-order search of a window tree for the first window
/// whose title the matcher chain accepts.
///
/// `pending` is a stack: its last element is the next window to look at.
pub struct TitleCrawler {
    pub pending: Vec<u32>,
    pub current: u32,
    pub phase: Phase,
    pub fetched: u64,
}

/// `stack` with `children` pushed from last to first, so that the first
/// child ends on top.
pub open spec fn push_children(stack: Seq<u32>, children: Seq<u32>) -> Seq<u32>
    decreases children.len(),
{
    if children.len() == 0 {
        stack
    } else {
        push_children(stack.push(children.last()), children.drop_last())
    }
}

impl TitleCrawler {
    /// Whether the next window on `stack` is visited: there is one, and the
    /// budget of windows is not spent.
    pub open spec fn visits_next(stack: Seq<u32>, fetched: u64) -> bool {
        stack.len() > 0 && fetched < MAX_WINDOWS
    }

    /// A search that starts by listing the children of `root`.
    pub fn start(root: u32) -> (r: (Self, CrawlStep))
        ensures
            r.1 == CrawlStep::QueryTree(root),
            r.0.pending@.len() == 0,
            r.0.phase == Phase::AwaitTree,
            r.0.current == root,
            r.0.fetched == 0,
    {
        (TitleCrawler { pending: Vec::new(), current: root, phase: Phase::AwaitTree, fetched: 0 }, CrawlStep::QueryTree(root))
    }

    /// Takes the next window off the stack, or ends the search.
    fn advance(&mut self) -> (r: CrawlStep)
        ensures
            Self::visits_next(old(self).pending@, old(self).fetched) ==> {
                &&& r == CrawlStep::FetchProperties(old(self).pending@.last())
                &&& final(self).pending@ == old(self).pending@.drop_last()
                &&& final(self).current == old(self).pending@.last()
                &&& final(self).phase == Phase::AwaitProperties
                &&& final(self).fetched == old(self).fetched + 1
            },
            !Self::visits_next(old(self).pending@, old(self).fetched) ==> {
                &&& r matches CrawlStep::Finished(None)
                &&& final(self).pending@ == old(self).pending@
                &&& final(self).current == old(self).current
                &&& final(self).phase == Phase::Done
                &&& final(self).fetched == old(self).fetched
            },
    {
        if self.fetched >= MAX_WINDOWS {
            self.phase = Phase::Done;
            return CrawlStep::Finished(None);
        }
        match self.pending.pop() {
            Some(w) => {
                self.current = w;
                self.phase = Phase::AwaitProperties;
                self.fetched = self.fetched + 1;
                CrawlStep::FetchProperties(w)
            },
            None => {
                self.phase = Phase::Done;
                CrawlStep::Finished(None)
            },
        }
    }

    /// Takes the answer to the last step and says what to do next.
    ///
    /// After a tree listing the children are searched first to last, each
    /// before its next sibling; a failed listing contributes nothing. After
    /// a property fetch, a non-empty title that the matcher chain accepts
    /// ends the search; otherwise the window's own children are listed next.
    /// A reply that does not answer the last step counts as a failure.
    pub fn step(&mut self, reply: CrawlReply) -> (r: CrawlStep)
        ensures
            old(self).phase == Phase::Done ==> {
                &&& r matches CrawlStep::Finished(None)
                &&& final(self).pending@ == old(self).pending@
                &&& final(self).phase == Phase::Done
            },
            old(self).phase == Phase::AwaitProperties ==> {
                match reply {
                    CrawlReply::Properties { title: Some(t), class } if t@.len() > 0 && matched_title(
                        t@,
                        class@,
                    ) is Some => {
                        &&& r matches CrawlStep::Finished(Some(m))
                        &&& Some(m@) == matched_title(t@, class@)
                        &&& final(self).phase == Phase::Done
                    },
                    _ => {
                        &&& r == CrawlStep::QueryTree(old(self).current)
                        &&& final(self).pending@ == old(self).pending@
                        &&& final(self).current == old(self).current
                        &&& final(self).phase == Phase::AwaitTree
                        &&& final(self).fetched == old(self).fetched
                    },
                }
            },
            old(self).phase == Phase::AwaitTree ==> {
                let stack = match reply {
                    CrawlReply::Children(ws) => push_children(old(self).pending@, ws@),
                    _ => old(self).pending@,
                };
                if Self::visits_next(stack, old(self).fetched) {
                    &&& r == CrawlStep::FetchProperties(stack.last())
                    &&& final(self).pending@ == stack.drop_last()
                    &&& final(self).current == stack.last()
                    &&& final(self).phase == Phase::AwaitProperties
                    &&& final(self).fetched == old(self).fetched + 1
                } else {
                    &&& r matches CrawlStep::Finished(None)
                    &&& final(self).pending@ == stack
                    &&& final(self).phase == Phase::Done
                }
            },
    {
        match self.phase {
            Phase::Done => CrawlStep::Finished(None),
            Phase::AwaitProperties => {
                if let CrawlReply::Properties { title: Some(t), class } = reply {
                    if t.unicode_len() > 0 {
                        if let Some(m) = match_title(t.as_str(), class.as_str()) {
                            self.phase = Phase::Done;
                            return CrawlStep::Finished(Some(m));
                        }
                    }
                }
                self.phase = Phase::AwaitTree;
                CrawlStep::QueryTree(self.current)
            },
            Phase::AwaitTree => {
                if let CrawlReply::Children(ws) = reply {
                    let ghost start = self.pending@;
                    let mut i: usize = ws.len();
                    assert(ws@.subrange(0, ws@.len() as int) =~= ws@);
                    while i > 0
                        invariant
                            i <= ws@.len(),
                            self.phase == old(self).phase,
                            self.fetched == old(self).fetched,
                            self.current == old(self).current,
                            push_children(start, ws@) == push_children(
                                self.pending@,
                                ws@.subrange(0, i as int),
                            ),
                        decreases i,
                    {
                        let ghost before = self.pending@;
                        let ghost part = ws@.subrange(0, i as int);
                        assert(part.drop_last() =~= ws@.subrange(0, i - 1));
                        assert(part.last() == ws@[i - 1]);
                        self.pending.push(ws[i - 1]);
                        assert(push_children(before, part) == push_children(self.pending@, part.drop_last()));
                        i = i - 1;
                    }
                    assert(ws@.subrange(0, 0) =~= Seq::<u32>::empty());
                    assert(push_children(self.pending@, Seq::<u32>::empty()) == self.pending@);
                }
                self.advance()
            },
        }
    }
}

} // verus!
