use vstd::prelude::*;

verus! {

/// The value the page number takes after conversion to binary-coded decimal:
/// hundreds in the nibble at bit 8 (truncated to 16 bits), tens at bit 4,
/// units at bit 0.
pub open spec fn bcd_page(page: u16) -> int {
    ((page / 100) * 256) % 65536 + ((page / 10) % 10) * 16 + page % 10
}

/// Three decimal digits packed one per nibble read back as the same digits.
proof fn lemma_nibbles(h: int, t: int, u: int)
    requires
        0 <= h < 10,
        0 <= t < 10,
        0 <= u < 10,
    ensures
        (h * 256 + t * 16 + u) / 256 == h,
        ((h * 256 + t * 16 + u) / 16) % 16 == t,
        (h * 256 + t * 16 + u) % 16 == u,
        h * 256 + t * 16 + u <= 0x999,
{
    assert((h * 256 + t * 16 + u) / 256 == h) by (nonlinear_arith)
        requires 0 <= h < 10, 0 <= t < 10, 0 <= u < 10;
    assert((h * 256 + t * 16 + u) / 16 == h * 16 + t) by (nonlinear_arith)
        requires 0 <= h < 10, 0 <= t < 10, 0 <= u < 10;
    assert((h * 16 + t) % 16 == t) by (nonlinear_arith)
        requires 0 <= h < 10, 0 <= t < 10;
    assert((h * 256 + t * 16 + u) % 16 == u) by (nonlinear_arith)
        requires 0 <= h < 10, 0 <= t < 10, 0 <= u < 10;
}

/// A page number below one thousand is the sum of its three decimal digits
/// weighted by their place.
proof fn lemma_decimal_digits(page: int)
    requires
        0 <= page <= 999,
    ensures
        0 <= page / 100 < 10,
        page == 100 * (page / 100) + 10 * ((page / 10) % 10) + page % 10,
{
    assert(page == 10 * (page / 10) + page % 10) by (nonlinear_arith)
        requires 0 <= page;
    assert(page / 10 == 10 * ((page / 10) / 10) + (page / 10) % 10) by (nonlinear_arith)
        requires 0 <= page;
    assert((page / 10) / 10 == page / 100) by (nonlinear_arith)
        requires 0 <= page;
    assert(page / 100 < 10) by (nonlinear_arith)
        requires 0 <= page <= 999;
}

/// Converts a decimal teletext page number into the binary-coded decimal
/// form in which magazine pages are numbered (ETSI EN 300 706): `888`
/// becomes `0x888`.
pub fn teletext_page_to_bcd(page: u16) -> (bcd: u16)
    ensures
        bcd == bcd_page(page),
        page <= 999 ==> {
            &&& bcd / 256 == page / 100
            &&& (bcd / 16) % 16 == (page / 10) % 10
            &&& bcd % 16 == page % 10
            &&& bcd <= 0x999
            &&& page == 100 * (bcd / 256) + 10 * ((bcd / 16) % 16) + bcd % 16
        },
{
    let hundreds: u16 = page / 100;
    let tens: u16 = (page / 10) % 10;
    let units: u16 = page % 10;
    let bcd: u16 = (hundreds << 8u16) | (tens << 4u16) | units;
    assert(bcd == ((hundreds as int * 256) % 65536) + tens * 16 + units) by (bit_vector)
        requires
            tens < 10,
            units < 10,
            bcd == (hundreds << 8u16) | (tens << 4u16) | units,
    ;
    proof {
        if page <= 999 {
            lemma_decimal_digits(page as int);
            assert((hundreds as int * 256) % 65536 == hundreds as int * 256);
            lemma_nibbles(hundreds as int, tens as int, units as int);
        }
    }
    bcd
}

/// The teletext page the run filters on, as the decoder expects it: a page
/// selected by the user (non-zero) is converted to BCD, the default page `0`
/// stays `0`.
pub fn configured_teletext_page(page: u16) -> (r: u16)
    ensures
        page == 0 ==> r == 0,
        page > 0 ==> r == bcd_page(page),
{
    if page > 0 {
        teletext_page_to_bcd(page)
    } else {
        page
    }
}

} // verus!
