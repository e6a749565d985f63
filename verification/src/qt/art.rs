//! Album artwork as coloured text: a small thumbnail rendered as HTML
//! spans, and the fixed placeholder, loading and error pictures.

use vstd::prelude::*;
use vstd::string::*;
use crate::text::{
    lemma_find_from, lemma_find_from_at, chars_of, find_from, find_text, hex_byte, occurs_at, pad_right, push_hex_byte, push_spaces,
    spaces, take_chars, text_between,
};

verus! {

/// A decoded image of the `image` crate.
#[verifier::external_type_specification]
#[verifier::external_body]
pub struct ExDynamicImage(image::DynamicImage);

/// Decodes an image with `image::load_from_memory`, guessing its format from
/// the bytes. Nothing is claimed of the outcome: which formats decode can
/// change while the program runs, as the crate consults decoder hooks
/// registered at run time. A failure is reported by the error's message.
#[verifier::external_body]
fn load_image(bytes: &[u8]) -> (r: Result<image::DynamicImage, String>) {
    match image::load_from_memory(bytes) {
        Ok(img) => Ok(img),
        Err(err) => Err(err.to_string()),
    }
}

/// Resizes with `DynamicImage::resize_exact` (triangle filter) to exactly
/// `width` by `height`, and returns the pixels of `DynamicImage::to_rgb8` as
/// raw bytes, three per pixel, row by row. Claimed: the result holds
/// `3 * width * height` bytes; their values are not described. The crate
/// resamples through a buffer of (image width) by `height` pixels of four
/// values, then one of `width` by `height` pixels of up to four, and panics
/// when a length overflows `usize`; an image is under 2^32 pixels wide, so
/// the bounds below rule that out.
#[verifier::external_body]
fn rgb_thumbnail(img: &image::DynamicImage, width: u32, height: u32) -> (r: Vec<u8>)
    requires
        width as int * height as int * 4 <= usize::MAX as int,
        height as int * 0x4_0000_0000 <= usize::MAX as int,
    ensures
        r@.len() == width as int * height as int * 3,
{
    img.resize_exact(width, height, image::imageops::FilterType::Triangle).to_rgb8().into_raw()
}

/// The glyph of a glyph index, from light to dark: space, `.`, `:`, `-`,
/// `=`, `+`, `*`, `#`, `%`, `@`; a space is written as `&nbsp;`.
pub open spec fn glyph_text(index: nat) -> Seq<char> {
    if index == 0 {
        "&nbsp;"@
    } else if index == 1 {
        "."@
    } else if index == 2 {
        ":"@
    } else if index == 3 {
        "-"@
    } else if index == 4 {
        "="@
    } else if index == 5 {
        "+"@
    } else if index == 6 {
        "*"@
    } else if index == 7 {
        "#"@
    } else if index == 8 {
        "%"@
    } else {
        "@"@
    }
}

/// The luminance of a pixel, 0 to 255.
pub open spec fn luminance(r: u8, g: u8, b: u8) -> nat {
    ((r as nat) * 299 + (g as nat) * 587 + (b as nat) * 114) / 1000
}

/// The glyph index of a luminance: darker pixels get denser glyphs.
pub open spec fn glyph_index(lum: nat) -> nat {
    (((255 - lum) as nat) * 9) / 255
}

/// One pixel: its glyph in a span coloured with the pixel's colour.
pub open spec fn pixel_html(r: u8, g: u8, b: u8) -> Seq<char> {
    "<span style=\"color:#"@ + hex_byte(r) + hex_byte(g) + hex_byte(b) + "\">"@ + glyph_text(
        glyph_index(luminance(r, g, b)),
    ) + "</span>"@
}

/// The offset of pixel `(x, y)` in row-major RGB bytes of an image `width` wide.
pub open spec fn pixel_offset(width: nat, x: nat, y: nat) -> int {
    (3 * (y * width + x)) as int
}

/// The first `x` pixels of row `y`.
pub open spec fn row_html(px: Seq<u8>, width: nat, y: nat, x: nat) -> Seq<char>
    decreases x,
{
    if x == 0 {
        Seq::empty()
    } else {
        let o = pixel_offset(width, (x - 1) as nat, y);
        row_html(px, width, y, (x - 1) as nat) + pixel_html(px[o], px[o + 1], px[o + 2])
    }
}

/// The first `y` rows, separated by `<br/>`.
pub open spec fn rows_html(px: Seq<u8>, width: nat, y: nat) -> Seq<char>
    decreases y,
{
    if y == 0 {
        Seq::empty()
    } else {
        rows_html(px, width, (y - 1) as nat) + (if y > 1 {
            "<br/>"@
        } else {
            Seq::empty()
        }) + row_html(px, width, (y - 1) as nat, width)
    }
}

/// The thumbnail as coloured text in a `pre` block.
pub open spec fn art_html(px: Seq<u8>, width: nat, height: nat) -> Seq<char> {
    "<pre style=\"margin:0\">"@ + rows_html(px, width, height) + "</pre>"@
}

/// The glyph of a glyph index.
fn glyph_literal(index: u32) -> (r: &'static str)
    requires
        index <= 9,
    ensures
        r@ == glyph_text(index as nat),
{
    if index == 0 {
        "&nbsp;"
    } else if index == 1 {
        "."
    } else if index == 2 {
        ":"
    } else if index == 3 {
        "-"
    } else if index == 4 {
        "="
    } else if index == 5 {
        "+"
    } else if index == 6 {
        "*"
    } else if index == 7 {
        "#"
    } else if index == 8 {
        "%"
    } else {
        "@"
    }
}

/// Appends one pixel as a coloured span.
fn push_pixel(out: &mut String, r: u8, g: u8, b: u8)
    ensures
        final(out)@ == old(out)@ + pixel_html(r, g, b),
{
    let lum: u32 = (r as u32 * 299 + g as u32 * 587 + b as u32 * 114) / 1000;
    assert(lum <= 255);
    let index: u32 = ((255 - lum) * 9) / 255;
    out.append("<span style=\"color:#");
    push_hex_byte(out, r);
    push_hex_byte(out, g);
    push_hex_byte(out, b);
    out.append("\">");
    out.append(glyph_literal(index));
    out.append("</span>");
    assert(out@ =~= old(out)@ + pixel_html(r, g, b));
}

/// Renders RGB pixels, `width` by `height`, as coloured text.
pub fn render_colored_art(px: &Vec<u8>, width: u32, height: u32) -> (r: String)
    requires
        px@.len() == width as int * height as int * 3,
    ensures
        r@ == art_html(px@, width as nat, height as nat),
{
    let mut out = String::from_str("<pre style=\"margin:0\">");
    let ghost start = out@;
    let mut y: u32 = 0;
    while y < height
        invariant
            px@.len() == width as int * height as int * 3,
            y <= height,
            out@ == start + rows_html(px@, width as nat, y as nat),
            start == "<pre style=\"margin:0\">"@,
        decreases height - y,
    {
        if y > 0 {
            out.append("<br/>");
        }
        let ghost row_start = out@;
        let mut x: u32 = 0;
        while x < width
            invariant
                px@.len() == width as int * height as int * 3,
                y < height,
                x <= width,
                out@ == row_start + row_html(px@, width as nat, y as nat, x as nat),
            decreases width - x,
        {
            assert(y as int * width as int + x as int + 1 <= width as int * height as int) by (nonlinear_arith)
                requires
                    y < height,
                    x < width,
            ;
            assert(px@.len() == px.len());
            let yw: usize = y as usize * width as usize;
            let o: usize = 3 * (yw + x as usize);
            assert(o as int == pixel_offset(width as nat, x as nat, y as nat));
            push_pixel(&mut out, px[o], px[o + 1], px[o + 2]);
            x = x + 1;
            assert(out@ =~= row_start + row_html(px@, width as nat, y as nat, x as nat));
        }
        y = y + 1;
        assert(out@ =~= start + rows_html(px@, width as nat, y as nat));
    }
    out.append("</pre>");
    out
}

/// Decodes image bytes and renders them as a `width` by `height` coloured
/// thumbnail, three bytes of pixel per cell; a failure to decode is
/// reported by the decoder's message. The bounds
/// keep the resampling buffers' lengths within `usize`.
pub fn colored_album_art_to_ascii(body: &[u8], width: u32, height: u32) -> (r: Result<String, String>)
    requires
        width as int * height as int * 4 <= usize::MAX as int,
        height as int * 0x4_0000_0000 <= usize::MAX as int,
    ensures
        r matches Ok(s) ==> exists|px: Seq<u8>|
            px.len() == width as int * height as int * 3 && s@ == #[trigger] art_html(px, width as nat, height as nat),
{
    match load_image(body) {
        Err(err) => Err(err),
        Ok(img) => {
            let px = rgb_thumbnail(&img, width, height);
            Ok(render_colored_art(&px, width, height))
        },
    }
}

/// The tree-sized rendering: 6 by 3.
pub fn tiny_album_art_to_ascii(body: &[u8]) -> (r: Result<String, String>)
    requires
        3 * 0x4_0000_0000 <= usize::MAX as int,
    ensures
        r matches Ok(s) ==> exists|px: Seq<u8>| px.len() == 6 * 3 * 3 && s@ == #[trigger] art_html(px, 6, 3),
{
    colored_album_art_to_ascii(body, 6, 3)
}

/// The header-sized rendering: 25 by 11.
pub fn medium_album_art_to_ascii(body: &[u8]) -> (r: Result<String, String>)
    requires
        11 * 0x4_0000_0000 <= usize::MAX as int,
    ensures
        r matches Ok(s) ==> exists|px: Seq<u8>| px.len() == 25 * 11 * 3 && s@ == #[trigger] art_html(px, 25, 11),
{
    colored_album_art_to_ascii(body, 25, 11)
}

/// The picture shown while nothing is playing.
pub fn ascii_art_placeholder() -> (r: &'static str)
    ensures
        r@ == PLACEHOLDER@,
{
    PLACEHOLDER
}

/// The picture shown while the artwork loads.
pub fn ascii_art_loading() -> (r: &'static str)
    ensures
        r@ == LOADING@,
{
    LOADING
}

pub const PLACEHOLDER: &'static str = "<pre style=\"color:#00ff87\">\
   ............................................   \n\
   ...............:-=++++++++=-:...............   \n\
   ............:=++++++++++++++++=:............   \n\
   ..........-++++=-:........:-=++++-..........   \n\
   ........=+++=:................:=+++=........   \n\
   ......:+++=......................=+++:......   \n\
   .....=+++.........:------:.........+++=.....   \n\
   ....=++=........./  SPOTIX \\........=++=....   \n\
   ...:+++:.........\\  MUSIC  /........:+++:...   \n\
   ...=++=...........:------:..........=++=...   \n\
   ...=++=.............................=++=...   \n\
   ...:+++:...........................:+++:...   \n\
   ....=++=.........................=++=....   \n\
   .....=+++.......................+++=.....   \n\
   ......:+++=...................=+++:......   \n\
   ........=+++=:.............:=+++=........   \n\
   ..........-++++=-:.....:-=++++-..........   \n\
   ............:=++++++++++++++++=:............   \n\
   ...............:-=++++++++=-:...............   \n\
   ............................................   \n\
   ................ select a track .............   \n\
   ............................................   </pre>";

pub const LOADING: &'static str = "<pre style=\"color:#3daee9\">\
   ............................................   \n\
   ...............:-=++++++++=-:...............   \n\
   ............:=++++++++++++++++=:............   \n\
   ..........-++++=-:........:-=++++-..........   \n\
   ........=+++=:................:=+++=........   \n\
   ......:+++=......................=+++:......   \n\
   .....=+++..........................+++=.....   \n\
   ....=++=......... loading art ......=++=....   \n\
   ...:+++:..........................:+++:...   \n\
   ...=++=..........[======>---]......=++=...   \n\
   ...=++=...........................=++=...   \n\
   ...:+++:..........................:+++:...   \n\
   ....=++=.........................=++=....   \n\
   .....=+++.......................+++=.....   \n\
   ......:+++=...................=+++:......   \n\
   ........=+++=:.............:=+++=........   \n\
   ..........-++++=-:.....:-=++++-..........   \n\
   ............:=++++++++++++++++=:............   \n\
   ...............:-=++++++++=-:...............   \n\
   ............................................   \n\
   ............................................   \n\
   ............................................   </pre>";

/// The start of the error picture, up to the message.
pub const ERROR_HEAD: &'static str = "<pre style=\"color:#ffd75f\">\
##################################\n\
#      album art unavailable     #\n\
# ";

/// The end of the error picture, after the message.
pub const ERROR_TAIL: &'static str = " #\n\
##################################\n\
\n\
\n\
\n\
\n\
\n\
\n\
\n\
\n\
\n\
\n\
\n\
</pre>";

/// The picture shown when the artwork could not be had: the first 28
/// characters of the message, padded to 28, in a frame.
pub open spec fn error_art(err: Seq<char>) -> Seq<char> {
    ERROR_HEAD@ + pad_right(take_chars(err, 28), 28) + ERROR_TAIL@
}

/// Renders the error picture for a message.
pub fn ascii_art_error(err: &str) -> (r: String)
    ensures
        r@ == error_art(err@),
{
    let n = err.unicode_len();
    let shown = if n <= 28 {
        n
    } else {
        28
    };
    let mut out = String::from_str(ERROR_HEAD);
    out.append(err.substring_char(0, shown));
    assert(err@.subrange(0, shown as int) =~= take_chars(err@, 28));
    push_spaces(&mut out, 28 - shown);
    out.append(ERROR_TAIL);
    assert(out@ =~= error_art(err@));
    out
}

/// What `extract_artem_pre` keeps of an HTML page: the text after the first
/// `<pre>` up to the next `<pre>`, cut at the first `</pre>`; the whole page
/// when it has no `<pre>`.
pub open spec fn pre_content(html: Seq<char>) -> Seq<char> {
    match find_from(html, "<pre>"@, 0) {
        None => html,
        Some(i) => {
            let start = i + "<pre>"@.len();
            let end = match find_from(html, "<pre>"@, start) {
                Some(j) => j,
                None => html.len() as int,
            };
            let seg = html.subrange(start, end);
            match find_from(seg, "</pre>"@, 0) {
                Some(k) => seg.take(k),
                None => seg,
            }
        },
    }
}

/// Keeps the `pre` block of an HTML rendering.
pub fn extract_artem_pre(html: &str) -> (r: String)
    ensures
        r@ == "<pre>"@ + pre_content(html@) + "</pre>"@,
{
    let hv = chars_of(html);
    let open = chars_of("<pre>");
    let close = chars_of("</pre>");
    let content = match find_text(&hv, &open, 0) {
        None => String::from_str(html),
        Some(i) => {
            proof {
                crate::text::lemma_find_from(hv@, open@, 0);
                assert(occurs_at(hv@, open@, i as int));
            }
            assert(i + open@.len() <= hv@.len());
            let n = hv.len();
            let ol = open.len();
            let start = i + ol;
            let end = match find_text(&hv, &open, start) {
                Some(j) => {
                    proof {
                        crate::text::lemma_find_from(hv@, open@, start as int);
                    }
                    j
                },
                None => hv.len(),
            };
            let seg = text_between(html, start, end);
            let sv = chars_of(seg.as_str());
            match find_text(&sv, &close, 0) {
                Some(k) => {
                    proof {
                        crate::text::lemma_find_from(sv@, close@, 0);
                    }
                    text_between(seg.as_str(), 0, k)
                },
                None => seg,
            }
        },
    };
    let mut out = String::from_str("<pre>");
    out.append(content.as_str());
    out.append("</pre>");
    assert(content@ =~= pre_content(html@));
    out
}

/// The page that `extract_artem_pre` gives for `html`.
pub open spec fn pre_page(html: Seq<char>) -> Seq<char> {
    "<pre>"@ + pre_content(html) + "</pre>"@
}

/// Neither `<pre>` nor `</pre>` occurs in the kept content of a page that
/// has a `<pre>` or no `</pre>`.
proof fn lemma_pre_content_clean(html: Seq<char>)
    requires
        find_from(html, "<pre>"@, 0) is Some || find_from(html, "</pre>"@, 0) is None,
    ensures
        forall|j: int| !occurs_at(pre_content(html), "<pre>"@, j),
        forall|j: int| !occurs_at(pre_content(html), "</pre>"@, j),
{
    reveal_strlit("<pre>");
    reveal_strlit("</pre>");
    let open = "<pre>"@;
    let close = "</pre>"@;
    let c = pre_content(html);
    lemma_find_from(html, open, 0);
    lemma_find_from(html, close, 0);
    match find_from(html, open, 0) {
        None => {
            assert(c == html);
            assert forall|j: int| !occurs_at(c, open, j) by {
                if j < 0 {
                }
            }
            assert forall|j: int| !occurs_at(c, close, j) by {
                if j < 0 {
                }
            }
        },
        Some(i) => {
            let start = i + open.len();
            lemma_find_from(html, open, start);
            let end = match find_from(html, open, start) {
                Some(j) => j,
                None => html.len() as int,
            };
            assert(start <= end <= html.len()) by {
                if find_from(html, open, start) is Some {
                    assert(occurs_at(html, open, end));
                }
            }
            let seg = html.subrange(start, end);
            assert forall|j: int| !occurs_at(seg, open, j) by {
                if occurs_at(seg, open, j) {
                    assert(seg.len() == end - start);
                    assert(html.subrange(start + j, start + j + open.len()) =~= seg.subrange(j, j + open.len()));
                    assert(occurs_at(html, open, start + j));
                    assert(start <= start + j < end);
                    match find_from(html, open, start) {
                        Some(e) => {
                            assert(e == end);
                            assert(!occurs_at(html, open, start + j));
                        },
                        None => {
                            assert(!occurs_at(html, open, start + j));
                        },
                    }
                }
            }
            lemma_find_from(seg, close, 0);
            match find_from(seg, close, 0) {
                Some(k) => {
                    assert(occurs_at(seg, close, k));
                    assert(c == seg.take(k));
                    assert(c.len() == k);
                    assert forall|j: int| !occurs_at(c, open, j) by {
                        if occurs_at(c, open, j) {
                            assert(seg.subrange(j, j + open.len()) =~= c.subrange(j, j + open.len()));
                            assert(occurs_at(seg, open, j));
                        }
                    }
                    assert forall|j: int| !occurs_at(c, close, j) by {
                        if occurs_at(c, close, j) {
                            assert(seg.subrange(j, j + close.len()) =~= c.subrange(j, j + close.len()));
                            assert(occurs_at(seg, close, j));
                            assert(0 <= j < k);
                        }
                    }
                },
                None => {
                    assert(c == seg);
                },
            }
        },
    }
}

/// Extracting the `pre` block twice gives what extracting it once gave,
/// for every page that has a `<pre>` or no `</pre>`.
pub proof fn law_extract_pre_idempotent(html: Seq<char>)
    requires
        find_from(html, "<pre>"@, 0) is Some || find_from(html, "</pre>"@, 0) is None,
    ensures
        pre_page(pre_page(html)) == pre_page(html),
{
    reveal_strlit("<pre>");
    reveal_strlit("</pre>");
    let open = "<pre>"@;
    let close = "</pre>"@;
    let c = pre_content(html);
    let o = pre_page(html);
    lemma_pre_content_clean(html);
    let q: int = 5 + c.len() as int;
    assert(o.len() == c.len() + 11);
    assert(forall|t: int| 0 <= t < 5 ==> o[t] == open[t]);
    assert(forall|t: int| 0 <= t < c.len() ==> o[5 + t] == c[t]);
    assert(forall|t: int| 0 <= t < 6 ==> o[q + t] == close[t]);
    assert(o.subrange(0, 5) =~= open);
    lemma_find_from_at(o, open, 0, 0);
    assert forall|j: int| 5 <= j implies !occurs_at(o, open, j) by {
        if occurs_at(o, open, j) {
            assert(o.subrange(j, j + 5)[0] == o[j]);
            if j + 5 <= q {
                assert(c.subrange(j - 5, j) =~= o.subrange(j, j + 5));
                assert(occurs_at(c, open, j - 5));
            } else if j < q {
                assert(o.subrange(j, j + 5)[q - j] == o[q]);
            } else if j == q {
                assert(o.subrange(j, j + 5)[1] == o[q + 1]);
            } else {
                assert(o.subrange(j, j + 5)[0] == o[q + 1]);
            }
        }
    }
    lemma_find_from(o, open, 5);
    let seg = o.subrange(5, o.len() as int);
    assert(seg =~= c + close);
    assert(seg.subrange(c.len() as int, c.len() as int + 6) =~= close);
    assert forall|j: int| 0 <= j < c.len() implies !occurs_at(seg, close, j) by {
        if occurs_at(seg, close, j) {
            if j + 6 <= c.len() {
                assert(c.subrange(j, j + 6) =~= seg.subrange(j, j + 6));
                assert(occurs_at(c, close, j));
            } else {
                assert(seg.subrange(j, j + 6)[c.len() - j] == seg[c.len() as int]);
                assert(seg[c.len() as int] == close[0]);
            }
        }
    }
    lemma_find_from_at(seg, close, 0, c.len() as int);
    assert(seg.take(c.len() as int) =~= c);
    assert(pre_content(o) == c);
}

} // verus!
