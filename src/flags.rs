use vstd::prelude::*;

verus! {

/// One detection option of libmagic.
///
/// Each option stands for one bit of the native option mask, except the
/// two combined ones: `MAGIC_NONE` sets no bit and `MAGIC_MIME` sets those
/// of `MAGIC_MIME_TYPE` and `MAGIC_MIME_ENCODING`.
#[allow(non_camel_case_types)]
#[derive(Clone, Copy, Debug, PartialEq, Eq, Structural)]
pub enum MagicFlag {
    /// No flags
    MAGIC_NONE,
    /// Turn on debugging
    MAGIC_DEBUG,
    /// Follow symlinks
    MAGIC_SYMLINK,
    /// Check inside compressed files
    MAGIC_COMPRESS,
    /// Look at the contents of devices
    MAGIC_DEVICES,
    /// Return the MIME type
    MAGIC_MIME_TYPE,
    /// Return all matches
    MAGIC_CONTINUE,
    /// Print warnings to stderr
    MAGIC_CHECK,
    /// Restore access time on exit
    MAGIC_PRESERVE_ATIME,
    /// Don't translate unprintable chars
    MAGIC_RAW,
    /// Handle ENOENT etc as real errors
    MAGIC_ERROR,
    /// Return the MIME encoding
    MAGIC_MIME_ENCODING,
    /// `MAGIC_MIME_TYPE` and `MAGIC_MIME_ENCODING`
    MAGIC_MIME,
    /// Return the Apple creator and type
    MAGIC_APPLE,
    /// Don't check for compressed files
    MAGIC_NO_CHECK_COMPRESS,
    /// Don't check for tar files
    MAGIC_NO_CHECK_TAR,
    /// Don't check magic entries
    MAGIC_NO_CHECK_SOFT,
    /// Don't check application type
    MAGIC_NO_CHECK_APPTYPE,
    /// Don't check for elf details
    MAGIC_NO_CHECK_ELF,
    /// Don't check for text files
    MAGIC_NO_CHECK_TEXT,
    /// Don't check for cdf files
    MAGIC_NO_CHECK_CDF,
    /// Don't check tokens
    MAGIC_NO_CHECK_TOKENS,
    /// Don't check text encodings
    MAGIC_NO_CHECK_ENCODING,
}

impl MagicFlag {
    /// The bits that this option sets in the native mask.
    pub open spec fn spec_bits(self) -> i32 {
        match self {
            MagicFlag::MAGIC_NONE => 0x000000,
            MagicFlag::MAGIC_DEBUG => 0x000001,
            MagicFlag::MAGIC_SYMLINK => 0x000002,
            MagicFlag::MAGIC_COMPRESS => 0x000004,
            MagicFlag::MAGIC_DEVICES => 0x000008,
            MagicFlag::MAGIC_MIME_TYPE => 0x000010,
            MagicFlag::MAGIC_CONTINUE => 0x000020,
            MagicFlag::MAGIC_CHECK => 0x000040,
            MagicFlag::MAGIC_PRESERVE_ATIME => 0x000080,
            MagicFlag::MAGIC_RAW => 0x000100,
            MagicFlag::MAGIC_ERROR => 0x000200,
            MagicFlag::MAGIC_MIME_ENCODING => 0x000400,
            MagicFlag::MAGIC_MIME => 0x000410,
            MagicFlag::MAGIC_APPLE => 0x000800,
            MagicFlag::MAGIC_NO_CHECK_COMPRESS => 0x001000,
            MagicFlag::MAGIC_NO_CHECK_TAR => 0x002000,
            MagicFlag::MAGIC_NO_CHECK_SOFT => 0x004000,
            MagicFlag::MAGIC_NO_CHECK_APPTYPE => 0x008000,
            MagicFlag::MAGIC_NO_CHECK_ELF => 0x010000,
            MagicFlag::MAGIC_NO_CHECK_TEXT => 0x020000,
            MagicFlag::MAGIC_NO_CHECK_CDF => 0x040000,
            MagicFlag::MAGIC_NO_CHECK_TOKENS => 0x100000,
            MagicFlag::MAGIC_NO_CHECK_ENCODING => 0x200000,
        }
    }

    /// The bits that this option sets in the native mask.
    pub fn bits(&self) -> (r: i32)
        ensures
            r == self.spec_bits(),
    {
        match self {
            MagicFlag::MAGIC_NONE => 0x000000,
            MagicFlag::MAGIC_DEBUG => 0x000001,
            MagicFlag::MAGIC_SYMLINK => 0x000002,
            MagicFlag::MAGIC_COMPRESS => 0x000004,
            MagicFlag::MAGIC_DEVICES => 0x000008,
            MagicFlag::MAGIC_MIME_TYPE => 0x000010,
            MagicFlag::MAGIC_CONTINUE => 0x000020,
            MagicFlag::MAGIC_CHECK => 0x000040,
            MagicFlag::MAGIC_PRESERVE_ATIME => 0x000080,
            MagicFlag::MAGIC_RAW => 0x000100,
            MagicFlag::MAGIC_ERROR => 0x000200,
            MagicFlag::MAGIC_MIME_ENCODING => 0x000400,
            MagicFlag::MAGIC_MIME => 0x000410,
            MagicFlag::MAGIC_APPLE => 0x000800,
            MagicFlag::MAGIC_NO_CHECK_COMPRESS => 0x001000,
            MagicFlag::MAGIC_NO_CHECK_TAR => 0x002000,
            MagicFlag::MAGIC_NO_CHECK_SOFT => 0x004000,
            MagicFlag::MAGIC_NO_CHECK_APPTYPE => 0x008000,
            MagicFlag::MAGIC_NO_CHECK_ELF => 0x010000,
            MagicFlag::MAGIC_NO_CHECK_TEXT => 0x020000,
            MagicFlag::MAGIC_NO_CHECK_CDF => 0x040000,
            MagicFlag::MAGIC_NO_CHECK_TOKENS => 0x100000,
            MagicFlag::MAGIC_NO_CHECK_ENCODING => 0x200000,
        }
    }
}

/// The native mask of a sequence of options: the bitwise OR of their bits,
/// folded from the zero mask.
pub open spec fn combined(flags: Seq<MagicFlag>) -> i32
    decreases flags.len(),
{
    if flags.len() == 0 {
        0
    } else {
        combined(flags.drop_last()) | flags.last().spec_bits()
    }
}

/// Every option of the sequence has all its bits in the combined mask.
pub proof fn lemma_combined_covers(flags: Seq<MagicFlag>)
    ensures
        forall|i: int|
            0 <= i < flags.len() ==> #[trigger] (combined(flags) | flags[i].spec_bits())
                == combined(flags),
    decreases flags.len(),
{
    if flags.len() > 0 {
        let rest = flags.drop_last();
        lemma_combined_covers(rest);
        let c = combined(rest);
        let l = flags.last().spec_bits();
        assert((c | l) | l == c | l) by (bit_vector);
        assert forall|i: int| 0 <= i < flags.len() implies #[trigger] (combined(flags)
            | flags[i].spec_bits()) == combined(flags) by {
            if i < flags.len() - 1 {
                let b = flags[i].spec_bits();
                assert(rest[i] == flags[i]);
                assert(c | b == c);
                assert((c | l) | b == c | l) by (bit_vector)
                    requires
                        c | b == c,
                ;
            }
        }
    }
}

/// The combined mask sets no bit that none of its options sets: any mask
/// that holds the bits of every option holds the combined mask.
pub proof fn lemma_combined_least(flags: Seq<MagicFlag>, m: i32)
    requires
        forall|i: int| 0 <= i < flags.len() ==> #[trigger] (m | flags[i].spec_bits()) == m,
    ensures
        m | combined(flags) == m,
    decreases flags.len(),
{
    if flags.len() == 0 {
        assert(m | 0 == m) by (bit_vector);
    } else {
        let rest = flags.drop_last();
        assert forall|i: int| 0 <= i < rest.len() implies #[trigger] (m | rest[i].spec_bits())
            == m by {
            assert(rest[i] == flags[i]);
        }
        lemma_combined_least(rest, m);
        let c = combined(rest);
        let l = flags.last().spec_bits();
        assert(m | l == m);
        assert(m | (c | l) == m) by (bit_vector)
            requires
                m | c == m,
                m | l == m,
        ;
    }
}

/// The combined mask depends only on which options occur: two sequences
/// that hold the same options, in any order and any number of times each,
/// give the same mask.
pub proof fn lemma_combine_same_options(a: Seq<MagicFlag>, b: Seq<MagicFlag>)
    requires
        forall|f: MagicFlag| a.contains(f) <==> b.contains(f),
    ensures
        combined(a) == combined(b),
{
    lemma_combined_covers(a);
    lemma_combined_covers(b);
    let ma = combined(a);
    let mb = combined(b);
    assert forall|i: int| 0 <= i < b.len() implies #[trigger] (ma | b[i].spec_bits()) == ma by {
        assert(b.contains(b[i]));
        let j = choose|j: int| 0 <= j < a.len() && a[j] == b[i];
        assert(ma | a[j].spec_bits() == ma);
    }
    assert forall|i: int| 0 <= i < a.len() implies #[trigger] (mb | a[i].spec_bits()) == mb by {
        assert(a.contains(a[i]));
        let j = choose|j: int| 0 <= j < b.len() && b[j] == a[i];
        assert(mb | b[j].spec_bits() == mb);
    }
    lemma_combined_least(b, ma);
    lemma_combined_least(a, mb);
    assert(ma == mb) by (bit_vector)
        requires
            ma | mb == ma,
            mb | ma == mb,
    ;
}

/// Combining no options gives the zero mask.
pub proof fn lemma_combine_empty()
    ensures
        combined(Seq::<MagicFlag>::empty()) == 0,
{
}

/// Reordering the options does not change the combined mask.
pub proof fn lemma_combine_reorder(a: Seq<MagicFlag>, b: Seq<MagicFlag>)
    requires
        a.to_multiset() =~= b.to_multiset(),
    ensures
        combined(a) == combined(b),
{
    broadcast use vstd::seq_lib::group_to_multiset_ensures;

    assert forall|f: MagicFlag| a.contains(f) <==> b.contains(f) by {
        assert(a.contains(f) <==> a.to_multiset().count(f) > 0);
        assert(b.contains(f) <==> b.to_multiset().count(f) > 0);
    }
    lemma_combine_same_options(a, b);
}

/// Repeating an option, at any place in the sequence, does not change the
/// combined mask.
pub proof fn lemma_combine_duplicate(flags: Seq<MagicFlag>, i: int, j: int)
    requires
        0 <= i < flags.len(),
        0 <= j <= flags.len(),
    ensures
        combined(flags.insert(j, flags[i])) == combined(flags),
{
    let longer = flags.insert(j, flags[i]);
    assert forall|f: MagicFlag| longer.contains(f) <==> flags.contains(f) by {
        if longer.contains(f) {
            let k = choose|k: int| 0 <= k < longer.len() && longer[k] == f;
            if k < j {
                assert(flags[k] == f);
            } else if k == j {
                assert(flags[i] == f);
            } else {
                assert(flags[k - 1] == f);
            }
        }
        if flags.contains(f) {
            let k = choose|k: int| 0 <= k < flags.len() && flags[k] == f;
            if k < j {
                assert(longer[k] == f);
            } else {
                assert(longer[k + 1] == f);
            }
        }
    }
    lemma_combine_same_options(longer, flags);
}

/// Encodes a list of options as the native option mask.
pub fn combine_flags(flags: &[MagicFlag]) -> (r: i32)
    ensures
        r == combined(flags@),
        flags@.len() == 0 ==> r == 0,
{
    let mut acc: i32 = 0;
    let mut i: usize = 0;
    while i < flags.len()
        invariant
            i <= flags@.len(),
            acc == combined(flags@.subrange(0, i as int)),
        decreases flags@.len() - i,
    {
        proof {
            assert(flags@.subrange(0, i + 1).drop_last() =~= flags@.subrange(0, i as int));
        }
        acc = acc | flags[i].bits();
        i = i + 1;
    }
    proof {
        assert(flags@.subrange(0, flags@.len() as int) =~= flags@);
    }
    acc
}

} // verus!
