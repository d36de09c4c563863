//! The storage slot of one tweet: a fixed run of bytes with a balance.
//!
//! The host allocates a slot of `Tweet::LEN` zeroed bytes and funds it. The
//! slot then holds a record, written over its front, until it is closed.

use vstd::prelude::*;
use crate::layout::{
    decode, decode_record, encode, encode_record, lemma_decode_encode,
    lemma_unmarked_holds_no_record, tweet_option_is, CLOSED_DISCRIMINATOR,
};
use crate::tweet::{Tweet, TweetView};

verus! {

/// `data` with its front replaced by `front`.
pub open spec fn overwrite(data: Seq<u8>, front: Seq<u8>) -> Seq<u8>
    recommends
        front.len() <= data.len(),
{
    front + data.subrange(front.len() as int, data.len() as int)
}

/// What a slot is, as plain mathematical values.
pub struct SlotView {
    /// The slot's balance.
    pub lamports: u64,
    /// The slot's bytes.
    pub data: Seq<u8>,
}

impl SlotView {
    /// The slot is as the host allocated it: all zeros.
    pub open spec fn is_fresh(self) -> bool {
        forall|i: int| 0 <= i < self.data.len() ==> self.data[i] == 0
    }

    /// The record that the slot holds, if it holds one.
    pub open spec fn record(self) -> Option<TweetView> {
        decode_record(self.data)
    }

    /// This slot after `t` was written to it.
    pub open spec fn with_record(self, t: TweetView) -> SlotView {
        SlotView { lamports: self.lamports, data: overwrite(self.data, encode_record(t)) }
    }

    /// This slot after it was closed: emptied of its balance and marked.
    pub open spec fn closed(self) -> SlotView {
        SlotView { lamports: 0, data: overwrite(self.data, CLOSED_DISCRIMINATOR@) }
    }
}

/// A storage slot. Every value of this type has exactly `Tweet::LEN` bytes.
#[derive(Debug, PartialEq, Eq)]
pub struct Slot {
    lamports: u64,
    data: Vec<u8>,
}

impl View for Slot {
    type V = SlotView;

    closed spec fn view(&self) -> SlotView {
        SlotView { lamports: self.lamports, data: self.data@ }
    }
}

impl Clone for Slot {
    fn clone(&self) -> (copy: Slot)
        ensures
            copy@ == self@,
    {
        proof {
            use_type_invariant(self);
        }
        Slot { lamports: self.lamports, data: self.data.clone() }
    }
}

impl Slot {
    #[verifier::type_invariant]
    spec fn sized(&self) -> bool {
        self.data@.len() == Tweet::LEN
    }

    /// A slot as the host allocates it: zeroed, with the given balance.
    pub fn allocate(lamports: u64) -> (slot: Slot)
        ensures
            slot@.lamports == lamports,
            slot@.data.len() == Tweet::LEN,
            slot@.is_fresh(),
            slot@.record() is None,
    {
        let mut data: Vec<u8> = Vec::new();
        let mut i: usize = 0;
        while i < Tweet::LEN
            invariant
                i <= Tweet::LEN,
                data@.len() == i,
                forall|k: int| 0 <= k < i ==> data@[k] == 0,
            decreases Tweet::LEN - i,
        {
            data.push(0);
            i += 1;
        }
        proof {
            lemma_unmarked_holds_no_record(data@);
        }
        Slot { lamports, data }
    }

    /// The slot with the given balance and bytes, where there are exactly
    /// `Tweet::LEN` of them.
    pub fn from_parts(lamports: u64, data: Vec<u8>) -> (r: Option<Slot>)
        ensures
            r is Some <==> data@.len() == Tweet::LEN,
            r is Some ==> r->Some_0@ == (SlotView { lamports, data: data@ }),
    {
        if data.len() == Tweet::LEN {
            Some(Slot { lamports, data })
        } else {
            None
        }
    }

    /// The slot's balance.
    pub fn lamports(&self) -> (lamports: u64)
        ensures
            lamports == self@.lamports,
    {
        self.lamports
    }

    /// The slot's bytes.
    pub fn data(&self) -> (data: &[u8])
        ensures
            data@ == self@.data,
            data@.len() == Tweet::LEN,
    {
        proof {
            use_type_invariant(self);
        }
        self.data.as_slice()
    }

    /// Whether the slot is as the host allocated it.
    pub fn is_fresh(&self) -> (r: bool)
        ensures
            r == self@.is_fresh(),
    {
        let mut i: usize = 0;
        while i < self.data.len()
            invariant
                i <= self.data@.len(),
                forall|k: int| 0 <= k < i ==> self.data@[k] == 0,
            decreases self.data@.len() - i,
        {
            if self.data[i] != 0 {
                assert(self@.data[i as int] != 0);
                return false;
            }
            i += 1;
        }
        true
    }

    /// The tweet that the slot holds, if it holds one.
    pub fn load(&self) -> (r: Option<Tweet>)
        ensures
            tweet_option_is(r, self@.record()),
            r is Some ==> r->Some_0@.valid(),
    {
        decode(self.data.as_slice())
    }

    /// Writes `tweet` over the front of the slot. The bytes behind it and
    /// the balance stay. The slot then holds `tweet`.
    pub fn store(&mut self, tweet: &Tweet)
        ensures
            final(self)@ == old(self)@.with_record(tweet@),
            final(self)@.record() == Some(tweet@),
            final(self)@.data.len() == Tweet::LEN,
    {
        proof {
            use_type_invariant(&*self);
        }
        let bytes = encode(tweet);
        proof {
            lemma_decode_encode(
                tweet@,
                self.data@.subrange(bytes@.len() as int, self.data@.len() as int),
            );
        }
        self.data = overwritten(self.data.as_slice(), bytes.as_slice());
    }

    /// Closes the slot: takes its whole balance out and marks its bytes as
    /// closed, so that it holds no record any more. Returns the balance.
    pub fn close(&mut self) -> (reclaimed: u64)
        ensures
            reclaimed == old(self)@.lamports,
            final(self)@ == old(self)@.closed(),
            final(self)@.record() is None,
            final(self)@.data.len() == Tweet::LEN,
    {
        proof {
            use_type_invariant(&*self);
        }
        let reclaimed: u64 = self.lamports;
        self.data = overwritten(self.data.as_slice(), CLOSED_DISCRIMINATOR.as_slice());
        self.lamports = 0;
        proof {
            lemma_unmarked_holds_no_record(self.data@);
        }
        reclaimed
    }
}

/// A copy of `data` with its front replaced by `front`.
fn overwritten(data: &[u8], front: &[u8]) -> (r: Vec<u8>)
    requires
        front@.len() <= data@.len(),
    ensures
        r@ == overwrite(data@, front@),
        r@.len() == data@.len(),
{
    let mut r: Vec<u8> = Vec::new();
    r.extend_from_slice(front);
    assert(r@ =~= front@ + data@.subrange(front@.len() as int, front@.len() as int));
    let mut i: usize = front.len();
    while i < data.len()
        invariant
            front@.len() <= i <= data@.len(),
            r@ == front@ + data@.subrange(front@.len() as int, i as int),
        decreases data@.len() - i,
    {
        r.push(data[i]);
        i += 1;
        assert(r@ =~= front@ + data@.subrange(front@.len() as int, i as int));
    }
    r
}

} // verus!
