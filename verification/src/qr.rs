//! The login QR code: encoding the login URL into modules, rendering the
//! modules as half-block terminal lines, decoding the worker's base64
//! image, and the plan for what a QR event makes the launcher do.

use vstd::prelude::*;
use base64::Engine;
use crate::text::{push_char, spec_find, spec_occurs_at, str_find};

verus! {

broadcast use vstd::string::group_string_axioms;

/// The modules of an encoded QR code, row-major.
pub struct QrModules {
    pub width: usize,
    pub dark: Vec<bool>,
}

impl QrModules {
    /// One color per module, and a side length an encoder can produce.
    pub open spec fn wf(&self) -> bool {
        self.dark@.len() == self.width * self.width && self.width <= 177
    }
}

/// What the QR encoder produces for given data: the side length and the
/// row-major module colors, or nothing when the data does not fit. The
/// encoding depends on the data alone.
pub uninterp spec fn qr_modules_of(data: Seq<char>) -> Option<(nat, Seq<bool>)>;

/// Relies on `qrcode::QrCode::new`, `width` and `to_colors`: the encoding
/// depends on the data alone; the colors are row-major, one per module of
/// a `width`-by-`width` grid, and automatic version selection keeps the
/// width at most 177.
#[verifier::external_body]
fn qr_encode(data: &str) -> (r: Option<QrModules>)
    ensures
        r matches Some(m) ==> m.wf() && qr_modules_of(data@) == Some((m.width as nat, m.dark@)),
        r is None ==> qr_modules_of(data@) is None,
{
    let code = match qrcode::QrCode::new(data.as_bytes()) {
        Ok(c) => c,
        Err(_) => return None,
    };
    let width = code.width();
    let mut dark = Vec::with_capacity(width * width);
    for color in code.to_colors() {
        dark.push(match color {
            qrcode::Color::Dark => true,
            qrcode::Color::Light => false,
        });
    }
    Some(QrModules { width, dark })
}

/// The color at a module, row-major.
pub open spec fn spec_dark_at(dark: Seq<bool>, width: nat, y: nat, x: nat) -> bool {
    dark[(y * width + x) as int]
}

/// The half-block character standing for a vertical pair of modules:
/// light is drawn full, dark as space.
pub open spec fn spec_qr_cell(top: bool, bottom: bool) -> char {
    if !top && !bottom {
        '█'
    } else if top && bottom {
        ' '
    } else if !top {
        '▀'
    } else {
        '▄'
    }
}

/// A solid border line of the rendering: the grid width plus two margin
/// columns on each side.
pub open spec fn spec_qr_border(width: nat) -> Seq<char> {
    Seq::new(width + 4, |i: int| '█')
}

/// One rendered line: the margin, one character per column pairing module
/// row `y` with the row below (light past the last row), and the margin.
pub open spec fn spec_qr_row(dark: Seq<bool>, width: nat, y: nat) -> Seq<char> {
    seq!['█', '█'] + Seq::new(
        width,
        |x: int|
            spec_qr_cell(
                spec_dark_at(dark, width, y, x as nat),
                if y + 1 < width {
                    spec_dark_at(dark, width, (y + 1) as nat, x as nat)
                } else {
                    false
                },
            ),
    ) + seq!['█', '█']
}

/// A solid line of `width + 4` blocks.
fn qr_border(width: usize) -> (r: String)
    requires
        width <= 177,
    ensures
        r@ == spec_qr_border(width as nat),
{
    let mut out = String::new();
    let total = width + 4;
    let mut i: usize = 0;
    proof {
        assert(out@ =~= Seq::new(0, |j: int| '█'));
    }
    while i < total
        invariant
            i <= total,
            out@ == Seq::new(i as nat, |j: int| '█'),
        decreases total - i,
    {
        push_char(&mut out, '█');
        proof {
            assert(out@ =~= Seq::new((i + 1) as nat, |j: int| '█'));
        }
        i = i + 1;
    }
    out
}

/// Renders QR modules as terminal lines: a solid border, the module rows
/// two at a time as half blocks behind two-column margins, and a solid
/// border.
pub fn render_qr_lines(m: &QrModules) -> (r: Vec<String>)
    requires
        m.wf(),
    ensures
        r@.len() == 2 + (m.width + 1) / 2,
        r@[0]@ == spec_qr_border(m.width as nat),
        forall|k: int| 0 <= k < (m.width + 1) / 2 ==> (#[trigger] r@[k + 1])@ == spec_qr_row(
            m.dark@,
            m.width as nat,
            (2 * k) as nat,
        ),
        r@[r@.len() - 1]@ == spec_qr_border(m.width as nat),
{
    let width = m.width;
    let rows = (width + 1) / 2;
    let mut out: Vec<String> = Vec::new();
    out.push(qr_border(width));
    let mut k: usize = 0;
    while k < rows
        invariant
            m.wf(),
            width == m.width,
            rows == (width + 1) / 2,
            k <= rows,
            out@.len() == k + 1,
            out@[0]@ == spec_qr_border(width as nat),
            forall|j: int| 0 <= j < k ==> (#[trigger] out@[j + 1])@ == spec_qr_row(
                m.dark@,
                width as nat,
                (2 * j) as nat,
            ),
        decreases rows - k,
    {
        let y = 2 * k;
        proof {
            assert(y < width);
        }
        let mut row = String::new();
        push_char(&mut row, '█');
        push_char(&mut row, '█');
        proof {
            assert(row@ =~= seq!['█', '█']);
        }
        let ghost cells = Seq::new(
            width as nat,
            |x: int|
                spec_qr_cell(
                    spec_dark_at(m.dark@, width as nat, y as nat, x as nat),
                    if y + 1 < width {
                        spec_dark_at(m.dark@, width as nat, (y + 1) as nat, x as nat)
                    } else {
                        false
                    },
                ),
        );
        let mut x: usize = 0;
        proof {
            assert(row@ =~= seq!['█', '█'] + cells.take(0));
        }
        while x < width
            invariant
                m.wf(),
                width == m.width,
                y < width,
                x <= width,
                cells == Seq::new(
                    width as nat,
                    |xx: int|
                        spec_qr_cell(
                            spec_dark_at(m.dark@, width as nat, y as nat, xx as nat),
                            if y + 1 < width {
                                spec_dark_at(m.dark@, width as nat, (y + 1) as nat, xx as nat)
                            } else {
                                false
                            },
                        ),
                ),
                row@ == seq!['█', '█'] + cells.take(x as int),
            decreases width - x,
        {
            proof {
                assert(width * width <= 31329 && y * width + x < width * width && (y + 1 < width
                    ==> (y + 1) * width + x < width * width)) by (nonlinear_arith)
                    requires
                        y < width,
                        x < width,
                        width <= 177,
                ;
            }
            let top = m.dark[y * width + x];
            let bottom: bool = if y + 1 < width {
                m.dark[(y + 1) * width + x]
            } else {
                false
            };
            let c: char = if !top && !bottom {
                '█'
            } else if top && bottom {
                ' '
            } else if !top {
                '▀'
            } else {
                '▄'
            };
            proof {
                assert(cells[x as int] == c);
            }
            push_char(&mut row, c);
            proof {
                assert(row@ =~= seq!['█', '█'] + cells.take(x as int + 1));
            }
            x = x + 1;
        }
        push_char(&mut row, '█');
        push_char(&mut row, '█');
        proof {
            assert(cells.take(width as int) =~= cells);
            assert(row@ =~= spec_qr_row(m.dark@, width as nat, y as nat));
        }
        let ghost prev = out@;
        out.push(row);
        proof {
            assert(forall|j: int| 0 <= j < prev.len() ==> out@[j] == prev[j]);
            assert(out@[k as int + 1]@ == spec_qr_row(m.dark@, width as nat, (2 * k) as nat));
        }
        k = k + 1;
    }
    let ghost prev = out@;
    out.push(qr_border(width));
    proof {
        assert(forall|j: int| 0 <= j < prev.len() ==> out@[j] == prev[j]);
        assert(out@[out@.len() - 1]@ == spec_qr_border(width as nat));
    }
    out
}

/// Encodes data as QR modules and renders them as terminal lines; nothing
/// when the data does not fit a QR code.
pub fn qr_terminal_lines(data: &str) -> (r: Option<Vec<String>>)
    ensures
        (r is Some) == (qr_modules_of(data@) is Some),
        r matches Some(lines) ==> (qr_modules_of(data@) matches Some(p) && {
            &&& lines@.len() == 2 + (p.0 + 1) / 2
            &&& lines@[0]@ == spec_qr_border(p.0)
            &&& (forall|k: int| 0 <= k < (p.0 + 1) / 2 ==> (#[trigger] lines@[k + 1])@
                == spec_qr_row(p.1, p.0, (2 * k) as nat))
            &&& lines@[lines@.len() - 1]@ == spec_qr_border(p.0)
        }),
{
    match qr_encode(data) {
        Some(m) => Some(render_qr_lines(&m)),
        None => None,
    }
}

/// What the base64 decoder yields for given text: the bytes, or nothing
/// when the text is not valid standard base64. The outcome depends on the
/// text alone.
pub uninterp spec fn base64_decode_of(s: Seq<char>) -> Option<Seq<u8>>;

/// Relies on `base64::engine::general_purpose::STANDARD.decode`: the
/// outcome depends on the text alone; invalid input is refused, never
/// mapped to bytes.
#[verifier::external_body]
fn b64_decode(s: &str) -> (r: Option<Vec<u8>>)
    ensures
        r matches Some(v) ==> base64_decode_of(s@) == Some(v@),
        r is None ==> base64_decode_of(s@) is None,
{
    base64::engine::general_purpose::STANDARD.decode(s).ok()
}

/// The image payload of a QR event: what follows the first `base64,`
/// marker, or the whole text when there is no marker.
pub open spec fn spec_qr_image_payload(s: Seq<char>) -> Seq<char> {
    match spec_find(s, "base64,"@) {
        Some(i) => s.skip(i + "base64,"@.len()),
        None => s,
    }
}

/// Strips a data-URL prefix off the worker's base64 image text.
pub fn strip_qr_image_prefix<'a>(s: &'a str) -> (r: &'a str)
    ensures
        r@ == spec_qr_image_payload(s@),
{
    let marker = "base64,";
    let mlen = marker.unicode_len();
    match str_find(s, marker) {
        Some(i) => {
            let n = s.unicode_len();
            proof {
                assert(spec_occurs_at(s@, marker@, i as int));
                assert(i + marker@.len() <= s@.len());
            }
            s.substring_char(i + mlen, n)
        },
        None => s,
    }
}

/// Decodes the image bytes of a QR event from their base64 text, with any
/// data-URL prefix stripped first.
pub fn decode_qr_png(png_base64: &str) -> (r: Result<Vec<u8>, String>)
    ensures
        base64_decode_of(spec_qr_image_payload(png_base64@)) matches Some(v) ==> (r matches Ok(
            out,
        ) && out@ == v),
        base64_decode_of(spec_qr_image_payload(png_base64@)) is None ==> r is Err,
{
    let payload = strip_qr_image_prefix(png_base64);
    match b64_decode(payload) {
        Some(bytes) => Ok(bytes),
        None => Err(String::from_str("base64 decode failed")),
    }
}

/// What a QR event makes the launcher do.
pub struct QrPlan {
    /// Render the code in the terminal (as configured).
    pub render_terminal: bool,
    /// Save the image file — only when the event carried image data.
    pub save_image: bool,
    /// Report the login URL — always.
    pub report_url: bool,
}

/// The plan for one QR event: the image file is written only when the
/// event carries image data, while the URL is reported either way, and
/// terminal rendering follows the configuration alone.
pub fn qr_actions(show_terminal_qr: bool, png_base64: &str) -> (r: QrPlan)
    ensures
        r.render_terminal == show_terminal_qr,
        r.save_image == (png_base64@.len() > 0),
        r.report_url,
{
    QrPlan {
        render_terminal: show_terminal_qr,
        save_image: !png_base64.is_empty(),
        report_url: true,
    }
}

} // verus!
