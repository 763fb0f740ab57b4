//! Message links and their canonical store keys.

use vstd::prelude::*;

verus! {

/// A message's address in a channel: the channel's application instance
/// (its identity) together with the message's position coordinates. The
/// protocol engine produces these; the adapter only derives store keys
/// from them and never looks further inside.
#[derive(Debug)]
pub struct Link {
    /// The channel identity shared by every message of one channel.
    pub app_inst: Vec<u8>,
    /// The message's coordinates within the channel.
    pub msg_id: Vec<u8>,
}

impl Link {
    /// The canonical index of the link, used verbatim as the store key:
    /// the channel identity followed by the message coordinates, with no
    /// hashing or truncation added.
    pub open spec fn key(self) -> Seq<u8> {
        self.app_inst@ + self.msg_id@
    }

    pub fn new(app_inst: Vec<u8>, msg_id: Vec<u8>) -> (r: Link)
        ensures
            r.app_inst@ == app_inst@,
            r.msg_id@ == msg_id@,
    {
        Link { app_inst, msg_id }
    }

    /// The store key of this link. Deterministic: the key is a pure
    /// function of the link's parts.
    pub fn to_key(&self) -> (r: Vec<u8>)
        ensures
            r@ == self.key(),
    {
        let mut key: Vec<u8> = Vec::new();
        let mut i: usize = 0;
        while i < self.app_inst.len()
            invariant
                i <= self.app_inst.len(),
                key@ == self.app_inst@.take(i as int),
            decreases self.app_inst.len() - i,
        {
            key.push(self.app_inst[i]);
            i = i + 1;
        }
        proof {
            assert(key@ == self.app_inst@);
        }
        let mut j: usize = 0;
        while j < self.msg_id.len()
            invariant
                j <= self.msg_id.len(),
                key@ == self.app_inst@ + self.msg_id@.take(j as int),
            decreases self.msg_id.len() - j,
        {
            key.push(self.msg_id[j]);
            j = j + 1;
        }
        proof {
            assert(key@ =~= self.key());
        }
        key
    }
}

pub(crate) fn copy_bytes(src: &Vec<u8>) -> (r: Vec<u8>)
    ensures
        r@ == src@,
{
    let mut out: Vec<u8> = Vec::new();
    let mut i: usize = 0;
    while i < src.len()
        invariant
            i <= src.len(),
            out@ == src@.take(i as int),
        decreases src.len() - i,
    {
        out.push(src[i]);
        i = i + 1;
    }
    proof {
        assert(out@ =~= src@);
    }
    out
}

impl Clone for Link {
    /// A copy that keeps both parts of the address exactly.
    fn clone(&self) -> (r: Link)
        ensures
            r.app_inst@ == self.app_inst@,
            r.msg_id@ == self.msg_id@,
    {
        Link { app_inst: copy_bytes(&self.app_inst), msg_id: copy_bytes(&self.msg_id) }
    }
}

/// Within one channel namespace (one application instance), distinct links
/// have distinct store keys: the key determines the message coordinates.
pub proof fn lemma_key_collision_free(a: Link, b: Link)
    requires
        a.app_inst@ == b.app_inst@,
        a.key() == b.key(),
    ensures
        a.msg_id@ == b.msg_id@,
{
    assert(a.msg_id@ =~= a.key().skip(a.app_inst@.len() as int));
    assert(b.msg_id@ =~= b.key().skip(b.app_inst@.len() as int));
}

} // verus!
