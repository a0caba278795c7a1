//! The files that wait for the next transfer.

use crate::text::{lemma_texts_push, texts};
use vstd::prelude::*;
use vstd::string::*;

verus! {

/// The list that the transfer tool reads: each path followed by a line
/// feed, in the order of `paths`.
pub open spec fn file_list_of(paths: Seq<Seq<char>>) -> Seq<char>
    decreases paths.len(),
{
    if paths.len() == 0 {
        Seq::empty()
    } else {
        file_list_of(paths.drop_last()) + paths.last() + seq!['\n']
    }
}

/// The paths that wait for transfer, in the order in which they were
/// queued. A path that was queued twice is held twice.
#[derive(Debug)]
pub struct TransferQueue {
    paths: Vec<String>,
}

impl View for TransferQueue {
    type V = Seq<Seq<char>>;

    closed spec fn view(&self) -> Seq<Seq<char>> {
        texts(self.paths@)
    }
}

impl TransferQueue {
    /// An empty queue.
    pub fn new() -> (queue: TransferQueue)
        ensures
            queue@ == Seq::<Seq<char>>::empty(),
    {
        TransferQueue { paths: Vec::new() }
    }

    /// Queues `path` behind what is already waiting.
    pub fn push(&mut self, path: String)
        ensures
            final(self)@ == old(self)@.push(path@),
    {
        proof {
            lemma_texts_push(self.paths@, path);
        }
        self.paths.push(path);
    }

    /// Queues `paths`, in their order, behind what is already waiting.
    pub fn extend(&mut self, paths: Vec<String>)
        ensures
            final(self)@ == old(self)@ + texts(paths@),
    {
        let mut paths = paths;
        self.paths.append(&mut paths);
    }

    /// How many paths wait.
    pub fn len(&self) -> (n: usize)
        ensures
            n == self@.len(),
    {
        self.paths.len()
    }

    /// Whether nothing waits.
    pub fn is_empty(&self) -> (b: bool)
        ensures
            b == (self@.len() == 0),
    {
        self.paths.len() == 0
    }

    /// The path at position `i`.
    pub fn get(&self, i: usize) -> (path: Option<&String>)
        ensures
            path is Some <==> i < self@.len(),
            path matches Some(p) ==> p@ == self@[i as int],
    {
        if i < self.paths.len() {
            Some(&self.paths[i])
        } else {
            None
        }
    }

    /// Drops every path.
    pub fn clear(&mut self)
        ensures
            final(self)@ == Seq::<Seq<char>>::empty(),
    {
        self.paths.clear();
    }

    /// The list that the transfer tool reads on its standard input.
    pub fn file_list(&self) -> (list: String)
        ensures
            list@ == file_list_of(self@),
    {
        let mut list = String::new();
        let mut i: usize = 0;
        proof {
            reveal_strlit("\n");
        }
        while i < self.paths.len()
            invariant
                i <= self.paths.len(),
                "\n"@ == seq!['\n'],
                list@ == file_list_of(self@.take(i as int)),
            decreases self.paths.len() - i,
        {
            proof {
                let next = self@.take(i + 1);
                assert(next.drop_last() =~= self@.take(i as int));
            }
            list.append(self.paths[i].as_str());
            list.append("\n");
            i = i + 1;
        }
        proof {
            assert(self@.take(i as int) =~= self@);
        }
        list
    }
}

} // verus!
