//! Commit identifiers and the plain data the log and rebase views read.
//!
//! A commit is identified by the twenty raw bytes of its object id; the
//! repository layer converts its own id type to and from these bytes at the
//! boundary.

use vstd::prelude::*;

verus! {

/// identifies a single commit
#[derive(Debug, Copy, Clone, PartialEq, Eq, Hash, Ord, PartialOrd)]
pub struct CommitId {
    bytes: [u8; 20],
}

impl View for CommitId {
    type V = Seq<u8>;

    closed spec fn view(&self) -> Seq<u8> {
        self.bytes@
    }
}

/// The lower-case hex character for the value `n`, taken modulo sixteen.
pub open spec fn hex_digit(n: u8) -> char {
    if n % 16 < 10 {
        ((n % 16) + 48) as char
    } else {
        ((n % 16) + 87) as char
    }
}

/// The lower-case hex rendering of a byte sequence, two characters per byte.
pub open spec fn hex_of_bytes(bs: Seq<u8>) -> Seq<char>
    decreases bs.len(),
{
    if bs.len() == 0 {
        Seq::empty()
    } else {
        seq![hex_digit(bs[0] / 16), hex_digit(bs[0] % 16)] + hex_of_bytes(bs.drop_first())
    }
}

/// Appending one byte to a sequence appends its two hex characters.
proof fn lemma_hex_snoc(bs: Seq<u8>, i: int)
    requires
        0 <= i < bs.len(),
    ensures
        hex_of_bytes(bs.take(i + 1)) == hex_of_bytes(bs.take(i)).push(hex_digit(bs[i] / 16)).push(
            hex_digit(bs[i] % 16),
        ),
    decreases i,
{
    if i == 0 {
        assert(bs.take(1) =~= seq![bs[0]]);
        assert(bs.take(1).len() == 1 && bs.take(1)[0] == bs[0]);
        assert(bs.take(1).drop_first() =~= Seq::empty());
        assert(hex_of_bytes(Seq::<u8>::empty()) =~= Seq::<char>::empty());
        assert(bs.take(0) =~= Seq::<u8>::empty());
        assert(hex_of_bytes(bs.take(0)) =~= Seq::empty());
        assert(hex_of_bytes(bs.take(1)) =~= hex_of_bytes(bs.take(0)).push(
            hex_digit(bs[0] / 16),
        ).push(hex_digit(bs[0] % 16)));
    } else {
        lemma_hex_snoc(bs.drop_first(), i - 1);
        assert(bs.take(i + 1).drop_first() =~= bs.drop_first().take(i));
        assert(bs.take(i).drop_first() =~= bs.drop_first().take(i - 1));
        assert(hex_of_bytes(bs.take(i + 1)) =~= hex_of_bytes(bs.take(i)).push(
            hex_digit(bs[i] / 16),
        ).push(hex_digit(bs[i] % 16)));
    }
}

impl CommitId {
    /// create new CommitId from the raw bytes of an object id
    pub fn new(id: [u8; 20]) -> (r: Self)
        ensures
            r@ == id@,
    {
        Self { bytes: id }
    }

    /// the raw object-id bytes, for handing back to the repository layer
    pub fn raw(&self) -> (r: [u8; 20])
        ensures
            r@ == self@,
    {
        self.bytes
    }

    /// whether two ids name the same commit
    pub fn same_as(&self, other: &CommitId) -> (r: bool)
        ensures
            r == (self@ == other@),
    {
        let mut i: usize = 0;
        while i < 20
            invariant
                0 <= i <= 20,
                forall|j: int| 0 <= j < i ==> self@[j] == other@[j],
            decreases 20 - i,
        {
            if self.bytes[i] != other.bytes[i] {
                return false;
            }
            i = i + 1;
        }
        proof {
            assert(self@ =~= other@);
        }
        true
    }

    /// Folds the id's bytes into a request fingerprint; equal ids always
    /// fingerprint equally.
    pub fn fingerprint(&self) -> (r: u64)
        ensures
            r == crate::hashing::spec_mix_bytes(crate::hashing::FNV_OFFSET, self@),
    {
        let mut acc: u64 = crate::hashing::FNV_OFFSET;
        let mut i: usize = 0;
        proof {
            assert(self@.skip(0) =~= self@);
        }
        while i < 20
            invariant
                0 <= i <= 20,
                self@.len() == 20,
                crate::hashing::spec_mix_bytes(acc, self@.skip(i as int))
                    == crate::hashing::spec_mix_bytes(crate::hashing::FNV_OFFSET, self@),
            decreases 20 - i,
        {
            proof {
                assert(self@.skip(i as int).drop_first() =~= self@.skip(i as int + 1));
                assert(self@.skip(i as int)[0] == self@[i as int]);
            }
            acc = crate::hashing::mix(acc, self.bytes[i] as u64);
            i = i + 1;
        }
        proof {
            assert(self@.skip(20) =~= Seq::<u8>::empty());
        }
        acc
    }

    /// the full forty-character lower-case hex form of the id
    pub fn hex_string(&self) -> (r: String)
        ensures
            r@ == hex_of_bytes(self@),
    {
        let mut s = String::new();
        let mut i: usize = 0;
        while i < 20
            invariant
                0 <= i <= 20,
                s@ == hex_of_bytes(self@.take(i as int)),
            decreases 20 - i,
        {
            let b = self.bytes[i];
            s.push(hex_char(b / 16));
            s.push(hex_char(b % 16));
            proof {
                lemma_hex_snoc(self@, i as int);
            }
            i = i + 1;
        }
        proof {
            assert(self@.take(20) =~= self@);
        }
        s
    }

    /// the short seven-character hex form shown in list views
    pub fn get_short_string(&self) -> (r: String)
        ensures
            r@ == hex_of_bytes(self@).take(7),
    {
        let mut s = String::new();
        s.push(hex_char(self.bytes[0] / 16));
        s.push(hex_char(self.bytes[0] % 16));
        s.push(hex_char(self.bytes[1] / 16));
        s.push(hex_char(self.bytes[1] % 16));
        s.push(hex_char(self.bytes[2] / 16));
        s.push(hex_char(self.bytes[2] % 16));
        s.push(hex_char(self.bytes[3] / 16));
        proof {
            lemma_hex_snoc(self@, 0);
            lemma_hex_snoc(self@, 1);
            lemma_hex_snoc(self@, 2);
            lemma_hex_snoc(self@, 3);
            assert(hex_of_bytes(self@).take(7) =~= hex_of_bytes(self@.take(4)).take(7)) by {
                lemma_hex_prefix(self@, 4);
            }
            assert(s@ =~= hex_of_bytes(self@.take(4)).take(7));
        }
        s
    }
}

/// The hex rendering of a prefix is a prefix of the hex rendering.
proof fn lemma_hex_prefix(bs: Seq<u8>, i: int)
    requires
        0 <= i <= bs.len(),
    ensures
        hex_of_bytes(bs).len() == 2 * bs.len(),
        hex_of_bytes(bs.take(i)) == hex_of_bytes(bs).take(2 * i),
    decreases bs.len(),
{
    if bs.len() == 0 {
        assert(bs.take(i) =~= bs);
        assert(hex_of_bytes(bs).take(2 * i) =~= hex_of_bytes(bs));
    } else {
        lemma_hex_prefix(bs.drop_first(), if i == 0 {
            0
        } else {
            i - 1
        });
        if i == 0 {
            assert(bs.take(0) =~= Seq::<u8>::empty());
            assert(hex_of_bytes(bs).take(0) =~= Seq::<char>::empty());
        } else {
            assert(bs.take(i).drop_first() =~= bs.drop_first().take(i - 1));
            assert(hex_of_bytes(bs.take(i)) =~= hex_of_bytes(bs).take(2 * i));
        }
    }
}

/// The character for one hex digit below sixteen.
fn hex_char(n: u8) -> (r: char)
    requires
        n < 16,
    ensures
        r == hex_digit(n),
{
    if n < 10 {
        (n + 48) as char
    } else {
        (n + 87) as char
    }
}

/// What the log shows of one commit.
#[derive(Debug, Clone)]
pub struct CommitInfo {
    /// the first line of the commit message, possibly shortened
    pub message: String,
    /// commit time in seconds
    pub time: i64,
    /// author name
    pub author: String,
    /// the commit's id
    pub id: CommitId,
}

/// How a rebase ended.
#[derive(Debug, PartialEq, Eq, Structural, Copy, Clone)]
pub enum RebaseState {
    /// every step applied cleanly
    Finished,
    /// a step hit a conflict and the rebase is pending
    Conflicted,
}

/// Where a pending rebase stands.
#[derive(Debug, PartialEq, Clone)]
pub struct RebaseProgress {
    /// total number of steps
    pub steps: usize,
    /// index of the current step
    pub current: usize,
    /// the commit the current step applies, when known
    pub current_commit: Option<CommitId>,
}

} // verus!
