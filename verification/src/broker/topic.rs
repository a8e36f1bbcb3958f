//! The log of one topic.

use vstd::prelude::*;
use crate::model::TopicView;

verus! {

/// The log of one topic.
///
/// The retained posts are the newest ones: `posts[i]` is the post numbered
/// `evicted + 1 + i`, and the last of them is numbered `post_counter`.
#[derive(Debug)]
pub struct TopicData {
    posts: Vec<Vec<u8>>,
    post_counter: u64,
    evicted: u64,
}

impl View for TopicData {
    type V = TopicView;

    closed spec fn view(&self) -> TopicView {
        TopicView {
            post_counter: self.post_counter as nat,
            posts: Map::new(
                |n: nat| self.evicted < n <= self.evicted + self.posts@.len(),
                |n: nat| self.posts@[n - self.evicted - 1]@,
            ),
        }
    }
}

impl TopicData {
    /// The retained posts end at the counter.
    pub closed spec fn wf(&self) -> bool {
        self.evicted + self.posts.len() == self.post_counter
    }

    /// The number of the newest post that was dropped, 0 for none.
    pub closed spec fn spec_evicted(&self) -> nat {
        self.evicted as nat
    }

    /// The payloads of the retained posts, oldest first.
    pub closed spec fn spec_posts(&self) -> Seq<Seq<u8>> {
        Seq::new(self.posts@.len(), |i: int| self.posts@[i]@)
    }

    /// The counter is a 64-bit number.
    pub proof fn lemma_counter_bound(&self)
        ensures
            self@.post_counter <= u64::MAX,
    {
    }

    /// A well-formed log is what its parts say: the counter, and the retained
    /// payloads numbered from the first one that was not dropped.
    pub proof fn lemma_parts(&self)
        requires
            self.wf(),
        ensures
            self@.wf(),
            self.spec_evicted() + self.spec_posts().len() == self@.post_counter,
            forall|n: nat| #[trigger]
                self@.posts.dom().contains(n) <==> self.spec_evicted() < n <= self@.post_counter,
            forall|n: nat|
                self.spec_evicted() < n <= self@.post_counter ==> #[trigger] self@.posts[n] == self.spec_posts()[n
                    - self.spec_evicted() - 1],
    {
    }

    /// Whether the retained posts end at the counter.
    pub fn check_wf(&self) -> (ok: bool)
        ensures
            ok == self.wf(),
    {
        self.evicted <= self.post_counter && self.posts.len() as u64 == self.post_counter - self.evicted
    }

    /// A topic nobody has published to.
    pub fn new() -> (log: TopicData)
        ensures
            log.wf(),
            log@ == TopicView::empty(),
    {
        let log = TopicData { posts: Vec::new(), post_counter: 0, evicted: 0 };
        assert(log@.posts =~= Map::<nat, Seq<u8>>::empty());
        log
    }

    /// A log from its parts, if they fit together: the retained posts must end
    /// at the counter.
    pub fn from_parts(post_counter: u64, evicted: u64, posts: Vec<Vec<u8>>) -> (log: Option<TopicData>)
        ensures
            log is Some <==> evicted + posts@.len() == post_counter,
            log matches Some(l) ==> {
                &&& l.wf()
                &&& l@.post_counter == post_counter
                &&& l.spec_evicted() == evicted
                &&& l.spec_posts() == Seq::new(posts@.len(), |i: int| posts@[i]@)
            },
    {
        if evicted <= post_counter && posts.len() as u64 == post_counter - evicted {
            Some(TopicData { posts, post_counter, evicted })
        } else {
            None
        }
    }

    /// How many posts the topic ever accepted.
    pub fn post_counter(&self) -> (n: u64)
        ensures
            n == self@.post_counter,
    {
        self.post_counter
    }

    /// The number of the newest post that was dropped, 0 for none.
    pub fn evicted(&self) -> (n: u64)
        ensures
            n == self.spec_evicted(),
    {
        self.evicted
    }

    /// The payloads of the retained posts, oldest first.
    pub fn posts(&self) -> (posts: &Vec<Vec<u8>>)
        ensures
            Seq::new(posts@.len(), |i: int| posts@[i]@) == self.spec_posts(),
    {
        &self.posts
    }

    /// Counts one more post and returns its number.
    fn increment_counter(&mut self) -> (n: u64)
        requires
            old(self).post_counter < u64::MAX,
        ensures
            n == old(self).post_counter + 1,
            final(self).post_counter == n,
            final(self).posts == old(self).posts,
            final(self).evicted == old(self).evicted,
    {
        self.post_counter += 1;
        self.post_counter
    }

    /// Appends a post to the log and returns the number it got.
    pub fn append(&mut self, payload: Vec<u8>) -> (n: u64)
        requires
            old(self).wf(),
            old(self)@.post_counter < u64::MAX,
        ensures
            final(self).wf(),
            n == old(self)@.post_counter + 1,
            final(self)@ == (TopicView {
                post_counter: n as nat,
                posts: old(self)@.posts.insert(n as nat, payload@),
            }),
            final(self).spec_evicted() == old(self).spec_evicted(),
    {
        let n = self.increment_counter();
        self.posts.push(payload);
        assert(final(self)@.posts =~= old(self)@.posts.insert(n as nat, payload@));
        n
    }

    /// The payload of post `n`, if it is retained.
    pub fn get(&self, n: u64) -> (payload: Option<&Vec<u8>>)
        requires
            self.wf(),
        ensures
            match payload {
                Some(p) => self@.posts.dom().contains(n as nat) && p@ == self@.posts[n as nat],
                None => !self@.posts.dom().contains(n as nat),
            },
    {
        if self.evicted < n && n <= self.post_counter {
            Some(&self.posts[(n - self.evicted - 1) as usize])
        } else {
            None
        }
    }

    /// Drops every retained post numbered `floor` or less.
    pub fn evict_through(&mut self, floor: u64)
        requires
            old(self).wf(),
        ensures
            final(self).wf(),
            final(self)@.post_counter == old(self)@.post_counter,
            final(self)@.posts == Map::new(
                |n: nat| old(self)@.posts.dom().contains(n) && floor < n,
                |n: nat| old(self)@.posts[n],
            ),
    {
        if floor > self.evicted {
            let through = if floor < self.post_counter {
                floor
            } else {
                self.post_counter
            };
            let dropped = (through - self.evicted) as usize;
            let kept = self.posts.split_off(dropped);
            self.posts = kept;
            self.evicted = through;
        }
        assert(final(self)@.posts =~= Map::new(
            |n: nat| old(self)@.posts.dom().contains(n) && floor < n,
            |n: nat| old(self)@.posts[n],
        ));
    }
}

} // verus!
