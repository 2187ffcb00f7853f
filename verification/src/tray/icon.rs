//! Which tray icon to show, and the compact format the icon images are
//! stored in.
//!
//! An image starts with a tag byte. Tag `0`: the rest is RGBA bytes. Any
//! other tag: palette form; the next byte is the palette length minus one,
//! then come the palette's RGBA entries, then one palette index per pixel.
use vstd::prelude::*;
use crate::monitors::InhibitFactor;

verus! {

/// The icons of one theme.
#[derive(Debug, Clone, Copy, PartialEq, Eq, Structural)]
pub enum IconKind {
    Default,
    Paused,
    Input,
    Cpu,
    Network,
    Disk,
    Sound,
    Process,
}

/// The icon for a state: `Paused` while paused, else the icon of the
/// reporting factor (both disk factors share one), else `Default`.
pub open spec fn icon_kind_spec(factor: Option<InhibitFactor>, paused: bool) -> IconKind {
    if paused {
        IconKind::Paused
    } else {
        match factor {
            Some(InhibitFactor::Process) => IconKind::Process,
            Some(InhibitFactor::Sound) => IconKind::Sound,
            Some(InhibitFactor::Cpu) => IconKind::Cpu,
            Some(InhibitFactor::Network) => IconKind::Network,
            Some(InhibitFactor::DiskRead) => IconKind::Disk,
            Some(InhibitFactor::DiskWrite) => IconKind::Disk,
            Some(InhibitFactor::Input) => IconKind::Input,
            None => IconKind::Default,
        }
    }
}

/// The icon for a state.
pub fn icon_kind(factor: Option<InhibitFactor>, paused: bool) -> (r: IconKind)
    ensures
        r == icon_kind_spec(factor, paused),
{
    if paused {
        return IconKind::Paused;
    }
    match factor {
        Some(InhibitFactor::Process) => IconKind::Process,
        Some(InhibitFactor::Sound) => IconKind::Sound,
        Some(InhibitFactor::Cpu) => IconKind::Cpu,
        Some(InhibitFactor::Network) => IconKind::Network,
        Some(InhibitFactor::DiskRead) | Some(InhibitFactor::DiskWrite) => IconKind::Disk,
        Some(InhibitFactor::Input) => IconKind::Input,
        None => IconKind::Default,
    }
}

/// The name an icon's image is stored under (before a theme suffix).
pub open spec fn icon_name_spec(k: IconKind) -> Seq<char> {
    match k {
        IconKind::Default => "default"@,
        IconKind::Paused => "paused"@,
        IconKind::Input => "input"@,
        IconKind::Cpu => "cpu"@,
        IconKind::Network => "network"@,
        IconKind::Disk => "disk"@,
        IconKind::Sound => "sound"@,
        IconKind::Process => "process"@,
    }
}

/// The name an icon's image is stored under (before a theme suffix).
pub fn icon_name(k: IconKind) -> (r: &'static str)
    ensures
        r@ == icon_name_spec(k),
{
    match k {
        IconKind::Default => "default",
        IconKind::Paused => "paused",
        IconKind::Input => "input",
        IconKind::Cpu => "cpu",
        IconKind::Network => "network",
        IconKind::Disk => "disk",
        IconKind::Sound => "sound",
        IconKind::Process => "process",
    }
}

/// Where the pixel indices start in palette form.
pub open spec fn indices_start(data: Seq<u8>) -> int {
    2 + (data[1] as int + 1) * 4
}

/// `data` is an image in the compact format that can be expanded: it has
/// a tag, and in palette form the header is complete and every pixel's
/// palette entry lies inside the data.
pub open spec fn is_compact_image(data: Seq<u8>) -> bool {
    &&& data.len() >= 1
    &&& data[0] != 0 ==> {
        &&& data.len() >= 2
        &&& indices_start(data) <= data.len()
        &&& forall|i: int|
            indices_start(data) <= i < data.len() ==> 2 + (#[trigger] data[i]) as int * 4 + 3
                < data.len()
    }
}

/// The RGBA bytes of a compact image.
pub open spec fn decompact_spec(data: Seq<u8>) -> Seq<u8> {
    if data[0] == 0 {
        data.subrange(1, data.len() as int)
    } else {
        let start = indices_start(data);
        Seq::new(
            ((data.len() - start) * 4) as nat,
            |j: int| data[2 + data[start + j / 4] as int * 4 + j % 4],
        )
    }
}

/// Expands a compact image into RGBA bytes.
pub fn decompact(data: &[u8]) -> (r: Vec<u8>)
    requires
        is_compact_image(data@),
        data@.len() * 4 <= usize::MAX,
    ensures
        r@ == decompact_spec(data@),
{
    let n = data.len();
    let mut r: Vec<u8> = Vec::new();
    if data[0] == 0 {
        let mut k: usize = 1;
        while k < n
            invariant
                n == data@.len(),
                1 <= k <= n,
                r@ =~= data@.subrange(1, k as int),
            decreases n - k,
        {
            r.push(data[k]);
            k = k + 1;
        }
        return r;
    }
    let palette_size = data[1] as usize + 1;
    let palette_start: usize = 2;
    let start = palette_start + palette_size * 4;
    let pixel_count = n - start;
    let mut i: usize = 0;
    while i < pixel_count
        invariant
            n == data@.len(),
            is_compact_image(data@),
            data@[0] != 0,
            start == indices_start(data@),
            pixel_count == n - start,
            i <= pixel_count,
            r@.len() == i * 4,
            forall|j: int|
                0 <= j < i * 4 ==> r@[j] == #[trigger] data@[2 + data@[start + j / 4] as int * 4
                    + j % 4],
        decreases pixel_count - i,
    {
        let b = data[start + i];
        let idx = b as usize;
        proof {
            let k = (start + i) as int;
            assert(b == data@[k]);
            assert(indices_start(data@) <= k < data@.len());
            assert(2 + (data@[k]) as int * 4 + 3 < data@.len());
            assert(idx < 256);
            assert(2 + idx * 4 + 3 < n);
        }
        let p = 2 + idx * 4;
        let ghost before = r@;
        r.push(data[p]);
        r.push(data[p + 1]);
        r.push(data[p + 2]);
        r.push(data[p + 3]);
        proof {
            assert forall|j: int| 0 <= j < (i + 1) * 4 implies r@[j] == #[trigger] data@[2
                + data@[start + j / 4] as int * 4 + j % 4] by {
                if j >= i * 4 {
                    assert(j / 4 == i as int);
                    assert(j % 4 == j - i * 4);
                }
            }
        }
        i = i + 1;
    }
    assert(r@ =~= decompact_spec(data@));
    r
}

/// Whether `data` is a compact image that can be expanded: the validity
/// condition of `decompact`, and a size whose expansion fits in memory.
pub fn is_expandable(data: &[u8]) -> (r: bool)
    ensures
        r == (is_compact_image(data@) && data@.len() * 4 <= usize::MAX),
{
    let n = data.len();
    if n == 0 || n > usize::MAX / 4 {
        return false;
    }
    if data[0] == 0 {
        return true;
    }
    if n < 2 {
        return false;
    }
    let start = 2 + (data[1] as usize + 1) * 4;
    if start > n {
        return false;
    }
    let mut i: usize = start;
    while i < n
        invariant
            n == data@.len(),
            n >= 2,
            data@[0] != 0,
            start == indices_start(data@),
            start <= i <= n,
            forall|k: int|
                start <= k < i ==> 2 + (#[trigger] data@[k]) as int * 4 + 3 < n,
        decreases n - i,
    {
        if 2 + data[i] as usize * 4 + 3 >= n {
            assert(!is_compact_image(data@));
            return false;
        }
        i = i + 1;
    }
    true
}

/// Expands `data` when it is a valid compact image (see `is_expandable`),
/// and gives `None` otherwise.
pub fn try_decompact(data: &[u8]) -> (r: Option<Vec<u8>>)
    ensures
        r is Some <==> (is_compact_image(data@) && data@.len() * 4 <= usize::MAX),
        r matches Some(v) ==> v@ == decompact_spec(data@),
{
    if is_expandable(data) {
        Some(decompact(data))
    } else {
        None
    }
}

/// The byte of an RGBA pixel that goes to position `m` of a BGRA pixel:
/// red and blue change places.
pub open spec fn bgra_source(m: int) -> int {
    if m == 0 {
        2
    } else if m == 2 {
        0
    } else {
        m
    }
}

/// The whole pixels of `rgba`, with red and blue swapped (the byte order
/// of a 32-bit device-independent bitmap).
pub open spec fn rgba_to_bgra_spec(rgba: Seq<u8>) -> Seq<u8> {
    Seq::new((rgba.len() / 4 * 4) as nat, |j: int| rgba[j / 4 * 4 + bgra_source(j % 4)])
}

/// Reorders the whole pixels of `rgba` from RGBA to BGRA; trailing bytes
/// that make no whole pixel are left out.
pub fn rgba_to_bgra(rgba: &[u8]) -> (r: Vec<u8>)
    ensures
        r@ == rgba_to_bgra_spec(rgba@),
{
    let n = rgba.len();
    let pixels = n / 4;
    let mut r: Vec<u8> = Vec::new();
    let mut i: usize = 0;
    while i < pixels
        invariant
            n == rgba@.len(),
            pixels == n / 4,
            i <= pixels,
            r@.len() == i * 4,
            forall|j: int|
                0 <= j < i * 4 ==> #[trigger] r@[j] == rgba@[j / 4 * 4 + bgra_source(j % 4)],
        decreases pixels - i,
    {
        assert(i * 4 + 3 < rgba@.len()) by (nonlinear_arith)
            requires
                i < pixels,
                pixels == n / 4,
                n == rgba@.len(),
        ;
        let b = i * 4;
        r.push(rgba[b + 2]);
        r.push(rgba[b + 1]);
        r.push(rgba[b]);
        r.push(rgba[b + 3]);
        proof {
            assert forall|j: int| 0 <= j < (i + 1) * 4 implies #[trigger] r@[j] == rgba@[j / 4 * 4
                + bgra_source(j % 4)] by {
                if j >= i * 4 {
                    assert(j / 4 == i as int);
                    assert(j % 4 == j - i * 4);
                }
            }
        }
        i = i + 1;
    }
    assert(r@ =~= rgba_to_bgra_spec(rgba@));
    r
}

// ---------------------------------------------------------------------
// The compact image format, written
// ---------------------------------------------------------------------

/// Pixel `i` of `rgba`: its four bytes.
pub open spec fn pixel_at(rgba: Seq<u8>, i: int) -> Seq<u8> {
    rgba.subrange(i * 4, i * 4 + 4)
}

/// The distinct colours of the first `n` pixels, in the order in which
/// they first appear.
pub open spec fn palette_of(rgba: Seq<u8>, n: nat) -> Seq<Seq<u8>>
    decreases n,
{
    if n == 0 {
        Seq::<Seq<u8>>::empty()
    } else {
        let p = palette_of(rgba, (n - 1) as nat);
        let c = pixel_at(rgba, n - 1);
        if p.contains(c) {
            p
        } else {
            p.push(c)
        }
    }
}

/// The position of colour `c` in `palette`.
pub open spec fn colour_index(palette: Seq<Seq<u8>>, c: Seq<u8>) -> int {
    choose|k: int| 0 <= k < palette.len() && palette[k] == c
}

/// The colours of a palette, one after another.
pub open spec fn flatten_palette(palette: Seq<Seq<u8>>) -> Seq<u8> {
    Seq::new(palette.len() * 4, |j: int| palette[j / 4][j % 4])
}

/// The compact form of an RGBA image: with at most 256 distinct colours,
/// `1`, the palette size minus one, the palette and one palette index per
/// pixel; otherwise `0` followed by the RGBA bytes.
pub open spec fn quantize_spec(rgba: Seq<u8>) -> Seq<u8> {
    let n = rgba.len() / 4;
    let pal = palette_of(rgba, n);
    if pal.len() <= 256 {
        seq![1u8, (pal.len() - 1) as u8] + flatten_palette(pal) + Seq::new(
            n,
            |i: int| colour_index(pal, pixel_at(rgba, i)) as u8,
        )
    } else {
        seq![0u8] + rgba
    }
}

/// The palette of the first `n` pixels: colours of four bytes, each once,
/// holding every colour of those pixels and nothing else.
proof fn lemma_palette(rgba: Seq<u8>, n: nat)
    requires
        n * 4 <= rgba.len(),
    ensures
        palette_of(rgba, n).len() <= n,
        forall|k: int|
            0 <= k < palette_of(rgba, n).len() ==> (#[trigger] palette_of(rgba, n)[k]).len() == 4,
        forall|a: int, b: int|
            0 <= a < b < palette_of(rgba, n).len() ==> palette_of(rgba, n)[a] != palette_of(
                rgba,
                n,
            )[b],
        forall|j: int| 0 <= j < n ==> palette_of(rgba, n).contains(#[trigger] pixel_at(rgba, j)),
    decreases n,
{
    if n > 0 {
        lemma_palette(rgba, (n - 1) as nat);
        let p = palette_of(rgba, (n - 1) as nat);
        let c = pixel_at(rgba, n - 1);
        if !p.contains(c) {
            let q = p.push(c);
            assert forall|j: int| 0 <= j < n implies q.contains(#[trigger] pixel_at(rgba, j)) by {
                if j < n - 1 {
                    let k = choose|k: int| 0 <= k < p.len() && p[k] == pixel_at(rgba, j);
                    assert(q[k] == p[k]);
                } else {
                    assert(q[p.len() as int] == c);
                }
            }
        }
    }
}

/// Earlier palettes are prefixes of later ones.
proof fn lemma_palette_prefix(rgba: Seq<u8>, i: nat, n: nat)
    requires
        i <= n,
    ensures
        palette_of(rgba, i).len() <= palette_of(rgba, n).len(),
        forall|k: int|
            0 <= k < palette_of(rgba, i).len() ==> palette_of(rgba, n)[k] == #[trigger] palette_of(
                rgba,
                i,
            )[k],
    decreases n - i,
{
    if i < n {
        lemma_palette_prefix(rgba, i, (n - 1) as nat);
    }
}

/// In a palette without repeated colours, `colour_index` finds the one
/// position of a colour it holds.
proof fn lemma_colour_index(palette: Seq<Seq<u8>>, c: Seq<u8>, k: int)
    requires
        forall|a: int, b: int| 0 <= a < b < palette.len() ==> palette[a] != palette[b],
        0 <= k < palette.len(),
        palette[k] == c,
    ensures
        colour_index(palette, c) == k,
{
    let i = colour_index(palette, c);
    assert(0 <= i < palette.len() && palette[i] == c);
    if i < k {
        assert(palette[i] != palette[k]);
    } else if k < i {
        assert(palette[k] != palette[i]);
    }
}

/// Whether palette entry `k` (stored flat in `pal`) is the colour of pixel
/// `i`.
fn same_colour(pal: &Vec<u8>, k: usize, rgba: &[u8], i: usize) -> (r: bool)
    requires
        k * 4 + 4 <= pal@.len(),
        i * 4 + 4 <= rgba@.len(),
    ensures
        r == (pal@.subrange(k * 4, k * 4 + 4) == pixel_at(rgba@, i as int)),
{
    let pal_len = pal.len();
    let rgba_len = rgba.len();
    assert(k * 4 + 4 <= pal_len && i * 4 + 4 <= rgba_len);
    let a = k * 4;
    let b = i * 4;
    let r = pal[a] == rgba[b] && pal[a + 1] == rgba[b + 1] && pal[a + 2] == rgba[b + 2] && pal[a
        + 3] == rgba[b + 3];
    proof {
        let x = pal@.subrange(k * 4, k * 4 + 4);
        let y = pixel_at(rgba@, i as int);
        if r {
            assert(x =~= y);
        } else {
            if x == y {
                assert(x[0] == y[0] && x[1] == y[1] && x[2] == y[2] && x[3] == y[3]);
            }
        }
    }
    r
}

/// `0` followed by the bytes of `rgba`.
fn raw_image(rgba: &[u8]) -> (r: Vec<u8>)
    ensures
        r@ == seq![0u8] + rgba@,
{
    let mut r: Vec<u8> = Vec::new();
    r.push(0u8);
    let n = rgba.len();
    let mut i: usize = 0;
    while i < n
        invariant
            n == rgba@.len(),
            i <= n,
            r@ =~= seq![0u8] + rgba@.subrange(0, i as int),
        decreases n - i,
    {
        r.push(rgba[i]);
        i = i + 1;
    }
    assert(rgba@.subrange(0, n as int) =~= rgba@);
    r
}

/// Writes an RGBA image (four bytes per pixel, at least one pixel) in the
/// compact form that `decompact` reads: palette indices when the image has
/// at most 256 distinct colours, the raw bytes otherwise.
pub fn quantize_rgba(rgba: &[u8]) -> (r: Vec<u8>)
    requires
        rgba@.len() >= 4,
    ensures
        r@ == quantize_spec(rgba@),
{
    let len = rgba.len();
    let n = len / 4;
    let mut pal: Vec<u8> = Vec::new();
    let mut m: usize = 0;
    let mut indices: Vec<u8> = Vec::new();
    let mut i: usize = 0;
    while i < n
        invariant
            len == rgba@.len(),
            n == len / 4,
            i <= n,
            m == palette_of(rgba@, i as nat).len(),
            m <= 256,
            pal@ == flatten_palette(palette_of(rgba@, i as nat)),
            indices@.len() == i,
            forall|j: int|
                0 <= j < i ==> (#[trigger] indices@[j]) < m && palette_of(rgba@, i as nat)[indices@[j] as int]
                    == pixel_at(rgba@, j),
        decreases n - i,
    {
        let ghost p = palette_of(rgba@, i as nat);
        proof {
            assert(i * 4 + 4 <= len) by (nonlinear_arith)
                requires
                    i < n,
                    n == len / 4,
            ;
            lemma_palette(rgba@, i as nat);
            assert(pal@.len() == m * 4);
        }
        let mut k: usize = 0;
        let mut found = false;
        while k < m
            invariant
                len == rgba@.len(),
                i * 4 + 4 <= len,
                m == p.len(),
                pal@ == flatten_palette(p),
                pal@.len() == m * 4,
                k <= m,
                forall|a: int| 0 <= a < p.len() ==> (#[trigger] p[a]).len() == 4,
                found ==> k < m && p[k as int] == pixel_at(rgba@, i as int),
                !found ==> forall|a: int| 0 <= a < k ==> p[a] != pixel_at(rgba@, i as int),
            ensures
                found ==> k < m && p[k as int] == pixel_at(rgba@, i as int),
                !found ==> forall|a: int| 0 <= a < m ==> p[a] != pixel_at(rgba@, i as int),
            decreases m - k,
        {
            proof {
                assert(k * 4 + 4 <= m * 4);
                assert(pal@.subrange(k * 4, k * 4 + 4) =~= p[k as int]) by {
                    assert forall|t: int| 0 <= t < 4 implies pal@.subrange(k * 4, k * 4 + 4)[t]
                        == p[k as int][t] by {
                        assert(pal@[k * 4 + t] == p[(k * 4 + t) / 4][(k * 4 + t) % 4]);
                        assert((k * 4 + t) / 4 == k);
                        assert((k * 4 + t) % 4 == t);
                    }
                }
            }
            if same_colour(&pal, k, rgba, i) {
                found = true;
                break;
            }
            k = k + 1;
        }
        let ghost c = pixel_at(rgba@, i as int);
        if found {
            assert(p.contains(c));
            indices.push(k as u8);
            proof {
                assert(palette_of(rgba@, (i + 1) as nat) == p);
            }
        } else {
            assert(!p.contains(c)) by {
                if p.contains(c) {
                    let a = choose|a: int| 0 <= a < p.len() && p[a] == c;
                    assert(p[a] != c);
                }
            }
            assert(palette_of(rgba@, (i + 1) as nat) == p.push(c));
            if m == 256 {
                proof {
                    lemma_palette_prefix(rgba@, (i + 1) as nat, n as nat);
                }
                return raw_image(rgba);
            }
            let b = i * 4;
            let ghost before = pal@;
            pal.push(rgba[b]);
            pal.push(rgba[b + 1]);
            pal.push(rgba[b + 2]);
            pal.push(rgba[b + 3]);
            proof {
                let q = p.push(c);
                assert(pal@ =~= flatten_palette(q)) by {
                    assert forall|t: int| 0 <= t < pal@.len() implies pal@[t] == flatten_palette(q)[t] by {
                        if t < m * 4 {
                            assert(t / 4 < m);
                            assert(q[t / 4] == p[t / 4]);
                        } else {
                            assert(t / 4 == m);
                            assert(q[t / 4] == c);
                        }
                    }
                }
            }
            indices.push(m as u8);
            m = m + 1;
        }
        proof {
            let q = palette_of(rgba@, (i + 1) as nat);
            assert forall|j: int|
                0 <= j < i + 1 implies (#[trigger] indices@[j]) < m && q[indices@[j] as int]
                == pixel_at(rgba@, j) by {
                if j < i {
                    assert(q[indices@[j] as int] == p[indices@[j] as int]);
                }
            }
        }
        i = i + 1;
    }
    let ghost pal_s = palette_of(rgba@, n as nat);
    proof {
        assert(n >= 1);
        assert(n * 4 <= len);
        lemma_palette(rgba@, n as nat);
        assert(m >= 1) by {
            assert(pal_s.contains(pixel_at(rgba@, 0)));
        }
    }
    let mut r: Vec<u8> = Vec::new();
    r.push(1u8);
    r.push((m - 1) as u8);
    let mut t: usize = 0;
    while t < pal.len()
        invariant
            r@ =~= seq![1u8, (m - 1) as u8] + pal@.subrange(0, t as int),
            t <= pal@.len(),
        decreases pal@.len() - t,
    {
        r.push(pal[t]);
        t = t + 1;
    }
    let mut j: usize = 0;
    while j < n
        invariant
            n == indices@.len(),
            j <= n,
            r@ =~= seq![1u8, (m - 1) as u8] + pal@ + indices@.subrange(0, j as int),
        decreases n - j,
    {
        r.push(indices[j]);
        j = j + 1;
    }
    proof {
        assert(pal@.subrange(0, pal@.len() as int) =~= pal@);
        assert(indices@.subrange(0, n as int) =~= indices@);
        let idx = Seq::new(n as nat, |i: int| colour_index(pal_s, pixel_at(rgba@, i)) as u8);
        assert forall|q: int| 0 <= q < n implies indices@[q] == #[trigger] idx[q] by {
            lemma_colour_index(pal_s, pixel_at(rgba@, q), indices@[q] as int);
        }
        assert(indices@ =~= idx);
    }
    r
}

/// Writing an image in the compact form and reading it back gives the
/// image again, for every image of whole pixels; and what is written is
/// always a valid compact image.
pub proof fn law_quantize_roundtrip(rgba: Seq<u8>)
    requires
        rgba.len() >= 4,
        rgba.len() % 4 == 0,
    ensures
        is_compact_image(quantize_spec(rgba)),
        decompact_spec(quantize_spec(rgba)) == rgba,
{
    let n = rgba.len() / 4;
    let pal = palette_of(rgba, n as nat);
    let data = quantize_spec(rgba);
    lemma_palette(rgba, n as nat);
    if pal.len() <= 256 {
        let m = pal.len();
        assert(m >= 1) by {
            assert(pal.contains(pixel_at(rgba, 0)));
        }
        let flat = flatten_palette(pal);
        let idx = Seq::new(n, |i: int| colour_index(pal, pixel_at(rgba, i)) as u8);
        assert(data == seq![1u8, (m - 1) as u8] + flat + idx);
        assert(data[1] as int + 1 == m);
        let start = 2 + m * 4;
        assert(indices_start(data) == start);
        assert(data.len() == start + n);
        assert forall|i: int| 0 <= i < n implies {
            &&& 0 <= colour_index(pal, pixel_at(rgba, i)) < m
            &&& pal[colour_index(pal, pixel_at(rgba, i))] == pixel_at(rgba, i)
            &&& #[trigger] data[start + i] == colour_index(pal, pixel_at(rgba, i)) as u8
        } by {
            assert(pal.contains(pixel_at(rgba, i)));
            assert(data[start + i] == idx[i]);
        }
        assert forall|i: int| start <= i < data.len() implies 2 + (#[trigger] data[i]) as int * 4 + 3
            < data.len() by {
            assert(data[start + (i - start)] == data[i]);
        }
        let out = decompact_spec(data);
        assert(out.len() == rgba.len());
        assert forall|j: int| 0 <= j < rgba.len() implies out[j] == rgba[j] by {
            let i = j / 4;
            let t = j % 4;
            let k = colour_index(pal, pixel_at(rgba, i));
            assert(data[start + i] == k as u8);
            assert(out[j] == data[2 + data[start + j / 4] as int * 4 + j % 4]);
            assert(data[2 + k * 4 + t] == flat[k * 4 + t]);
            assert((k * 4 + t) / 4 == k);
            assert((k * 4 + t) % 4 == t);
            assert(flat[k * 4 + t] == pal[k][t]);
            assert(pixel_at(rgba, i)[t] == rgba[i * 4 + t]);
            assert(i * 4 + t == j);
        }
        assert(out =~= rgba);
    } else {
        assert(data == seq![0u8] + rgba);
        assert(decompact_spec(data) =~= rgba);
    }
}

} // verus!
