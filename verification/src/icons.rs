//! Icon glyphs of the editor's icon font, and joining them into one label.
use vstd::prelude::*;

verus! {

/// U+F000, NUL-terminated.
pub const _KNIFE: [u8; 4] = [239, 128, 128, 0];

/// U+F001, NUL-terminated.
pub const _MEASURE: [u8; 4] = [239, 128, 129, 0];

/// U+F002, NUL-terminated.
pub const _PAN: [u8; 4] = [239, 128, 130, 0];

/// U+F003, NUL-terminated.
pub const _PEN: [u8; 4] = [239, 128, 131, 0];

/// U+F004, NUL-terminated.
pub const _PENCIL: [u8; 4] = [239, 128, 132, 0];

/// U+F005, NUL-terminated.
pub const _SELECT: [u8; 4] = [239, 128, 133, 0];

/// U+F006, NUL-terminated.
pub const _SHAPES: [u8; 4] = [239, 128, 134, 0];

/// U+F007, NUL-terminated.
pub const _TEXT: [u8; 4] = [239, 128, 135, 0];

/// U+F008, NUL-terminated.
pub const _ZOOM: [u8; 4] = [239, 128, 136, 0];

/// U+F009, NUL-terminated.
pub const _VWS: [u8; 4] = [239, 128, 137, 0];

/// U+F00A, NUL-terminated.
pub const _ANCHOR: [u8; 4] = [239, 128, 138, 0];

/// U+F00B, NUL-terminated.
pub const _PAP: [u8; 4] = [239, 128, 139, 0];

/// U+F00C, NUL-terminated.
pub const _OPENEYE: [u8; 4] = [239, 128, 140, 0];

/// U+F00D, NUL-terminated.
pub const _CLOSEDEYE: [u8; 4] = [239, 128, 141, 0];

/// U+F00E, NUL-terminated.
pub const _MINUS: [u8; 4] = [239, 128, 142, 0];

/// U+F00F, NUL-terminated.
pub const _PLUS: [u8; 4] = [239, 128, 143, 0];

/// U+F010, NUL-terminated.
pub const _ARROWLEFT: [u8; 4] = [239, 128, 144, 0];

/// U+F011, NUL-terminated.
pub const _ARROWDOWN: [u8; 4] = [239, 128, 145, 0];

/// U+F012, NUL-terminated.
pub const _ARROWUP: [u8; 4] = [239, 128, 146, 0];

/// U+F014, NUL-terminated.
pub const _ARROWRIGHT: [u8; 4] = [239, 128, 148, 0];

/// U+F015, NUL-terminated.
pub const _RENAME: [u8; 4] = [239, 128, 149, 0];

/// U+F016, NUL-terminated.
pub const _LAYERUNION: [u8; 4] = [239, 128, 150, 0];

/// U+F017, NUL-terminated.
pub const _LAYERCOMBINE: [u8; 4] = [239, 128, 151, 0];

/// U+F018, NUL-terminated.
pub const _LAYERDIFFERENCE: [u8; 4] = [239, 128, 152, 0];

/// U+F019, NUL-terminated.
pub const _LAYERINTERSECTION: [u8; 4] = [239, 128, 153, 0];

/// U+F01A, NUL-terminated.
pub const _LAYERXOR: [u8; 4] = [239, 128, 154, 0];

/// U+F01C, NUL-terminated.
pub const _IMAGES: [u8; 4] = [239, 128, 156, 0];

/// U+F029, NUL-terminated.
pub const _GRID: [u8; 4] = [239, 128, 169, 0];

/// U+F030, NUL-terminated.
pub const _GUIDELINES: [u8; 4] = [239, 128, 176, 0];

/// U+F035, NUL-terminated.
pub const _DASH: [u8; 4] = [239, 128, 181, 0];

/// U+F036, NUL-terminated.
pub const _GLOBE: [u8; 4] = [239, 128, 182, 0];

/// U+F037, NUL-terminated.
pub const _UFO: [u8; 4] = [239, 128, 183, 0];

/// The bytes of each icon, as sequences.
pub open spec fn icon_bytes(icons: Seq<&[u8]>) -> Seq<Seq<u8>> {
    icons.map_values(|s: &[u8]| s@)
}

/// What `chain` has built after handling the first `n` icons: each icon is appended,
/// and after every icon but the last one the final byte is taken off again.
pub open spec fn chained(icons: Seq<Seq<u8>>, n: nat) -> Seq<u8>
    decreases n,
{
    if n == 0 {
        Seq::empty()
    } else {
        let joined = chained(icons, (n - 1) as nat) + icons[n - 1];
        if n == icons.len() {
            joined
        } else {
            joined.drop_last()
        }
    }
}

/// The bytes held just after icon `i` was appended, before anything is taken off.
pub open spec fn joined_at(icons: Seq<Seq<u8>>, i: int) -> Seq<u8> {
    chained(icons, i as nat) + icons[i]
}

/// `chain` accepts the icons when every byte it takes off is a NUL byte.
pub open spec fn chain_accepts(icons: Seq<Seq<u8>>) -> bool {
    forall|i: int|
        0 <= i < icons.len() - 1 ==> {
            &&& #[trigger] joined_at(icons, i).len() > 0
            &&& joined_at(icons, i).last() == 0
        }
}

/// An icon that ends in a NUL byte.
pub open spec fn nul_terminated(icon: Seq<u8>) -> bool {
    icon.len() > 0 && icon.last() == 0
}

/// Every icon but the last one ends in a NUL byte.
pub open spec fn terminated_but_last(icons: Seq<Seq<u8>>) -> bool {
    forall|i: int| 0 <= i < icons.len() - 1 ==> nul_terminated(#[trigger] icons[i])
}

/// The first `n` icons, each without its last byte, one after the other.
pub open spec fn stripped(icons: Seq<Seq<u8>>, n: nat) -> Seq<u8>
    decreases n,
{
    if n == 0 {
        Seq::empty()
    } else {
        stripped(icons, (n - 1) as nat) + icons[n - 1].drop_last()
    }
}

/// The total number of bytes in the first `n` icons.
pub open spec fn total_len(icons: Seq<Seq<u8>>, n: nat) -> nat
    decreases n,
{
    if n == 0 {
        0
    } else {
        total_len(icons, (n - 1) as nat) + icons[n - 1].len()
    }
}

proof fn lemma_chained_is_stripped(icons: Seq<Seq<u8>>, n: nat)
    requires
        n < icons.len(),
        terminated_but_last(icons),
    ensures
        chained(icons, n) == stripped(icons, n),
    decreases n,
{
    if n > 0 {
        lemma_chained_is_stripped(icons, (n - 1) as nat);
        let a = chained(icons, (n - 1) as nat);
        let b = icons[n - 1];
        assert(nul_terminated(icons[n - 1]));
        assert((a + b).drop_last() =~= a + b.drop_last());
    }
}

/// Icons that each end in a NUL byte (the last one aside) are always accepted; the
/// result is those icons without their NUL bytes, followed by the last icon whole, so
/// it ends in a NUL byte when the last icon does.
pub proof fn lemma_chain_of_terminated_icons(icons: Seq<Seq<u8>>)
    requires
        icons.len() > 0,
        terminated_but_last(icons),
    ensures
        chain_accepts(icons),
        chained(icons, icons.len()) == stripped(icons, (icons.len() - 1) as nat) + icons.last(),
        nul_terminated(icons.last()) ==> nul_terminated(chained(icons, icons.len())),
{
    assert forall|i: int| 0 <= i < icons.len() - 1 implies {
        &&& #[trigger] joined_at(icons, i).len() > 0
        &&& joined_at(icons, i).last() == 0
    } by {
        assert(nul_terminated(icons[i]));
    }
    lemma_chained_is_stripped(icons, (icons.len() - 1) as nat);
}

proof fn lemma_chained_len(icons: Seq<Seq<u8>>, n: nat)
    requires
        chain_accepts(icons),
        0 < n <= icons.len(),
    ensures
        n < icons.len() ==> chained(icons, n).len() + n == total_len(icons, n),
        n == icons.len() ==> chained(icons, n).len() + n == total_len(icons, n) + 1,
    decreases n,
{
    if n > 1 {
        lemma_chained_len(icons, (n - 1) as nat);
    } else {
        assert(chained(icons, 0) =~= Seq::<u8>::empty());
        assert(total_len(icons, 0) == 0);
    }
    let joined = joined_at(icons, n - 1);
    assert(joined == chained(icons, (n - 1) as nat) + icons[n - 1]);
    if n < icons.len() {
        assert(joined.len() > 0);
        assert(chained(icons, n) == joined.drop_last());
    } else {
        assert(chained(icons, n) == joined);
    }
}

/// Every icon but the last loses exactly one byte: the result holds all the icons'
/// bytes but one for each icon after the first.
pub proof fn lemma_chain_len(icons: Seq<Seq<u8>>)
    requires
        chain_accepts(icons),
        icons.len() > 0,
    ensures
        chained(icons, icons.len()).len() == total_len(icons, icons.len()) - (icons.len() - 1),
{
    lemma_chained_len(icons, icons.len());
}

proof fn lemma_stripped_append(a: Seq<Seq<u8>>, b: Seq<Seq<u8>>, k: nat)
    requires
        k <= b.len(),
    ensures
        stripped(a + b, a.len() + k) == stripped(a, a.len()) + stripped(b, k),
    decreases k,
{
    if k == 0 {
        assert(stripped(b, 0) =~= Seq::<u8>::empty());
        assert(stripped(a + b, a.len()) == stripped(a, a.len())) by {
            lemma_stripped_prefix(a, b, a.len());
        }
        assert(stripped(a, a.len()) + stripped(b, 0) =~= stripped(a, a.len()));
    } else {
        lemma_stripped_append(a, b, (k - 1) as nat);
        assert((a + b)[a.len() + k - 1] == b[k - 1]);
        assert(stripped(a + b, a.len() + k) =~= stripped(a, a.len()) + stripped(b, k));
    }
}

proof fn lemma_stripped_prefix(a: Seq<Seq<u8>>, b: Seq<Seq<u8>>, n: nat)
    requires
        n <= a.len(),
    ensures
        stripped(a + b, n) == stripped(a, n),
    decreases n,
{
    if n > 0 {
        lemma_stripped_prefix(a, b, (n - 1) as nat);
        assert((a + b)[n - 1] == a[n - 1]);
    }
}

/// Chaining two labels made by `chain` gives the label of all their icons chained at
/// once, when every icon but the very last ends in a NUL byte.
pub proof fn lemma_chain_of_chains(a: Seq<Seq<u8>>, b: Seq<Seq<u8>>)
    requires
        a.len() > 0,
        b.len() > 0,
        terminated_but_last(a + b),
    ensures
        chain_accepts(seq![chained(a, a.len()), chained(b, b.len())]),
        chained(seq![chained(a, a.len()), chained(b, b.len())], 2) == chained(a + b, a.len() + b.len()),
{
    let ab = a + b;
    assert(terminated_but_last(a)) by {
        assert forall|i: int| 0 <= i < a.len() - 1 implies nul_terminated(#[trigger] a[i]) by {
            assert(ab[i] == a[i]);
        }
    }
    assert(terminated_but_last(b)) by {
        assert forall|i: int| 0 <= i < b.len() - 1 implies nul_terminated(#[trigger] b[i]) by {
            assert(ab[a.len() + i] == b[i]);
        }
    }
    assert(nul_terminated(a.last())) by {
        assert(ab[a.len() - 1] == a.last());
    }
    lemma_chain_of_terminated_icons(a);
    lemma_chain_of_terminated_icons(b);
    lemma_chain_of_terminated_icons(ab);
    let ca = chained(a, a.len());
    let cb = chained(b, b.len());
    let pair = seq![ca, cb];
    lemma_chain_of_terminated_icons(pair);
    assert(chained(pair, 2) == ca.drop_last() + cb) by {
        assert(chained(pair, 0) =~= Seq::<u8>::empty());
        assert(chained(pair, 1) =~= ca.drop_last());
    }
    // the last icon of `a` loses its NUL byte
    assert(ca.drop_last() =~= stripped(a, a.len())) by {
        let sa = stripped(a, (a.len() - 1) as nat);
        assert(ca == sa + a.last());
        assert(stripped(a, a.len()) == sa + a.last().drop_last());
        assert((sa + a.last()).drop_last() =~= sa + a.last().drop_last());
    }
    lemma_stripped_append(a, b, (b.len() - 1) as nat);
    assert(ab.last() == b.last());
    assert(chained(ab, ab.len()) == stripped(ab, (ab.len() - 1) as nat) + ab.last());
    assert(ab.len() - 1 == a.len() + (b.len() - 1));
    assert(chained(pair, 2) =~= chained(ab, ab.len()));
}

/// Joins NUL-terminated icons into one NUL-terminated string: every icon but the last
/// loses its terminating NUL byte.
pub fn chain(icons: &[&[u8]]) -> (ret: Vec<u8>)
    requires
        chain_accepts(icon_bytes(icons@)),
    ensures
        ret@ == chained(icon_bytes(icons@), icons@.len()),
{
    let ghost iv = icon_bytes(icons@);
    let n = icons.len();
    let mut ret: Vec<u8> = if n <= usize::MAX / 4 {
        Vec::with_capacity(n * 4)
    } else {
        Vec::new()
    };
    let mut i: usize = 0;
    while i < n
        invariant
            n == icons@.len(),
            iv == icon_bytes(icons@),
            chain_accepts(iv),
            i <= n,
            ret@ == chained(iv, i as nat),
        decreases n - i,
    {
        let icon: &[u8] = icons[i];
        let ghost before = ret@;
        let m = icon.len();
        let mut j: usize = 0;
        while j < m
            invariant
                m == icon@.len(),
                j <= m,
                ret@ == before + icon@.subrange(0, j as int),
            decreases m - j,
        {
            ret.push(icon[j]);
            j = j + 1;
            assert(ret@ =~= before + icon@.subrange(0, j as int));
        }
        assert(icon@.subrange(0, m as int) =~= icon@);
        assert(iv[i as int] == icon@);
        assert(ret@ == joined_at(iv, i as int));
        if i != n - 1 {
            let popped = ret.pop();
            assert(popped == Some(0u8));
        }
        i = i + 1;
    }
    ret
}

} // verus!
