//! Rendering of header entities into C source text.
//!
//! Every entity renders through `Token::token` (and, for entities that
//! bracket a header, `EndToken::end_token`); the text that each produces is
//! stated by the spec functions of this module.

use vstd::prelude::*;
use vstd::string::{StrSliceExecFns, StringExecFns};

use crate::numeral::{push_decimal, push_signed_decimal, push_hex, decimal, signed_decimal, hex_lower};
use crate::{
    Header, HeaderView, Macro, MacroView, Type, TypeView, Func, FuncView, HeaderGuard, GuardView,
    CXX, Variadic,
};

verus! {

/// Create C tokens from item
pub trait Token {
    /// The text that `token` produces for this item.
    spec fn spelling(&self) -> Seq<char>;

    fn token(&self) -> (r: String)
        ensures
            r@ == self.spelling(),
    ;
}

/// Certain items (header guards, language support) require tokens at both the
/// beginning and the end of a header; `EndToken` gives the one at the end.
pub trait EndToken {
    /// The text that `end_token` produces for this item.
    spec fn end_spelling(&self) -> Seq<char>;

    fn end_token(&self) -> (r: String)
        ensures
            r@ == self.end_spelling(),
    ;
}

/// The parts one after another, with nothing between them.
pub open spec fn concat_all(parts: Seq<Seq<char>>) -> Seq<char>
    decreases parts.len(),
{
    if parts.len() == 0 {
        Seq::empty()
    } else {
        concat_all(parts.drop_last()) + parts.last()
    }
}

/// The parts one after another, with `sep` between each two of them.
pub open spec fn joined(parts: Seq<Seq<char>>, sep: Seq<char>) -> Seq<char>
    decreases parts.len(),
{
    if parts.len() == 0 {
        Seq::empty()
    } else if parts.len() == 1 {
        parts[0]
    } else {
        joined(parts.drop_last(), sep) + sep + parts.last()
    }
}

/// `typedef <type> <name>;` and a newline.
pub open spec fn typedef_text(t: TypeView) -> Seq<char> {
    "typedef "@ + t.ty + " "@ + t.name + ";\n"@
}

/// `#define <tok> <val>` and a newline.
pub open spec fn macro_text(m: MacroView) -> Seq<char> {
    "#define "@ + m.tok + " "@ + m.val + "\n"@
}

/// What closes the parameter list of a function declaration before `)`:
/// nothing for a fixed arity, the ellipsis for a variadic one, preceded by
/// `, ` unless the parameter list is empty.
pub open spec fn ellipsis_text(f: FuncView) -> Seq<char> {
    match f.va {
        Variadic::Nary => Seq::empty(),
        Variadic::Variadic => if f.params.len() == 0 {
            "..."@
        } else {
            ", ..."@
        },
    }
}

/// `<out> <name>(<params joined by ", "><ellipsis>);` and a newline.
pub open spec fn func_text(f: FuncView) -> Seq<char> {
    f.out + " "@ + f.name + "("@ + joined(f.params, ", "@) + ellipsis_text(f) + ");\n"@
}

/// The opening of an include guard: `#ifndef <tok>`, `#define <tok> <val>`.
pub open spec fn guard_open_text(g: GuardView) -> Seq<char> {
    "#ifndef "@ + g.tok + "\n#define "@ + g.tok + " "@ + g.val + "\n"@
}

/// The closing of an include guard.
pub open spec fn guard_close_text() -> Seq<char> {
    "#endif\n"@
}

/// The block that opens a header for the given language support.
pub open spec fn cxx_open_text(c: CXX) -> Seq<char> {
    match c {
        CXX::C => "#ifdef __cplusplus\n#error \"This header can only be used by C\"\n#endif\n"@,
        CXX::CXX => "#ifdef __cplusplus\nextern \"C\" {\n#endif\n"@,
        CXX::CXXOnly => "#ifndef __cplusplus\n#error \"This header can only be used by C++\"\n#endif\n"@,
    }
}

/// The block that closes a header for the given language support: only a
/// header for both C and C++ has one.
pub open spec fn cxx_close_text(c: CXX) -> Seq<char> {
    match c {
        CXX::CXX => "#ifdef __cplusplus\n}\n#endif\n"@,
        _ => Seq::empty(),
    }
}

/// An optional block followed by a blank line, or nothing when it is absent.
pub open spec fn opt_block(o: Option<Seq<char>>) -> Seq<char> {
    match o {
        Some(s) => s + "\n"@,
        None => Seq::empty(),
    }
}

/// All typedefs of a sequence, in order.
pub open spec fn typedefs_text(ts: Seq<TypeView>) -> Seq<char> {
    concat_all(ts.map_values(|t: TypeView| typedef_text(t)))
}

/// All macro definitions of a sequence, in order.
pub open spec fn macros_text(ms: Seq<MacroView>) -> Seq<char> {
    concat_all(ms.map_values(|m: MacroView| macro_text(m)))
}

/// All function declarations of a sequence, in order.
pub open spec fn funcs_text(fs: Seq<FuncView>) -> Seq<char> {
    concat_all(fs.map_values(|f: FuncView| func_text(f)))
}

/// The whole text of a header: guard opening, language block, typedefs,
/// macros, functions, extra symbols, language block closing, guard closing
/// and the symbols after the guard, each section followed by a blank line.
pub open spec fn header_text(h: HeaderView) -> Seq<char> {
    let guard_open = match h.guard {
        Some(g) => Some(guard_open_text(g)),
        None => None,
    };
    let guard_close = match h.guard {
        Some(_) => Some(guard_close_text()),
        None => None,
    };
    opt_block(guard_open)
        + cxx_open_text(h.cxx) + "\n"@
        + typedefs_text(h.types) + "\n"@
        + macros_text(h.macros) + "\n"@
        + funcs_text(h.funcs) + "\n"@
        + opt_block(h.extra)
        + cxx_close_text(h.cxx) + "\n"@
        + opt_block(guard_close)
        + opt_block(h.post_extra)
}

proof fn lemma_concat_all_take(parts: Seq<Seq<char>>, i: int)
    requires
        0 <= i < parts.len(),
    ensures
        concat_all(parts.take(i + 1)) == concat_all(parts.take(i)) + parts[i],
{
    assert(parts.take(i + 1).drop_last() =~= parts.take(i));
}

proof fn lemma_joined_take(parts: Seq<Seq<char>>, sep: Seq<char>, i: int)
    requires
        0 <= i < parts.len(),
    ensures
        joined(parts.take(i + 1), sep) == if i == 0 {
            parts[0]
        } else {
            joined(parts.take(i), sep) + sep + parts[i]
        },
{
    assert(parts.take(i + 1).drop_last() =~= parts.take(i));
}

/// Appends the tokens of all items, in order, to `out`.
fn push_tokens<T: Token>(out: &mut String, items: &[T])
    ensures
        final(out)@ == old(out)@ + concat_all(items@.map_values(|x: T| x.spelling())),
{
    let ghost parts = items@.map_values(|x: T| x.spelling());
    let mut i: usize = 0;
    while i < items.len()
        invariant
            i <= items@.len(),
            parts == items@.map_values(|x: T| x.spelling()),
            out@ == old(out)@ + concat_all(parts.take(i as int)),
        decreases items@.len() - i,
    {
        let t = items[i].token();
        out.append(t.as_str());
        proof {
            lemma_concat_all_take(parts, i as int);
        }
        i += 1;
    }
    assert(parts.take(items@.len() as int) =~= parts);
}

impl<'a> Token for Header<'a> {
    open spec fn spelling(&self) -> Seq<char> {
        header_text(self@)
    }

    fn token(&self) -> (r: String) {
        let mut out = String::new();
        let guard = self.guard();
        if let Some(g) = guard {
            out.append(g.token().as_str());
            out.append("\n");
        }
        let cxx = self.cxx();
        out.append(cxx.token().as_str());
        out.append("\n");
        let types = self.types();
        push_tokens(&mut out, types);
        assert(types@.map_values(|x: Type<'a>| x.spelling()) =~= self@.types.map_values(
            |t: TypeView| typedef_text(t),
        ));
        out.append("\n");
        let macros = self.macros();
        push_tokens(&mut out, macros);
        assert(macros@.map_values(|x: Macro<'a>| x.spelling()) =~= self@.macros.map_values(
            |m: MacroView| macro_text(m),
        ));
        out.append("\n");
        let funcs = self.funcs();
        push_tokens(&mut out, funcs);
        assert(funcs@.map_values(|x: Func<'a>| x.spelling()) =~= self@.funcs.map_values(
            |f: FuncView| func_text(f),
        ));
        out.append("\n");
        if let Some(extra) = self.extra() {
            out.append(extra);
            out.append("\n");
        }
        out.append(cxx.end_token().as_str());
        out.append("\n");
        if let Some(g) = guard {
            out.append(g.end_token().as_str());
            out.append("\n");
        }
        if let Some(post_extra) = self.post_extra() {
            out.append(post_extra);
            out.append("\n");
        }
        assert(out@ =~= header_text(self@));
        out
    }
}

impl<'a> Token for Func<'a> {
    open spec fn spelling(&self) -> Seq<char> {
        func_text(self@)
    }

    fn token(&self) -> (r: String) {
        let params = self.params();
        let ghost ps = self@.params;
        let mut out = String::from_str(self.out());
        out.append(" ");
        out.append(self.name());
        out.append("(");
        let ghost head = out@;
        let mut i: usize = 0;
        while i < params.len()
            invariant
                i <= params@.len(),
                ps == crate::strs_view(params@),
                out@ == head + joined(ps.take(i as int), ", "@),
            decreases params@.len() - i,
        {
            if i != 0 {
                out.append(", ");
            }
            out.append(params[i]);
            proof {
                lemma_joined_take(ps, ", "@, i as int);
            }
            i += 1;
        }
        assert(ps.take(params@.len() as int) =~= ps);
        if let Variadic::Variadic = self.va() {
            if params.len() == 0 {
                out.append("...");
            } else {
                out.append(", ...");
            }
        }
        out.append(");\n");
        assert(out@ =~= func_text(self@));
        out
    }
}

impl<'a> Token for Macro<'a> {
    open spec fn spelling(&self) -> Seq<char> {
        macro_text(self@)
    }

    fn token(&self) -> (r: String) {
        let mut out = String::from_str("#define ");
        out.append(self.tok());
        out.append(" ");
        out.append(self.val());
        out.append("\n");
        assert(out@ =~= macro_text(self@));
        out
    }
}

impl<'a> Token for Type<'a> {
    open spec fn spelling(&self) -> Seq<char> {
        typedef_text(self@)
    }

    fn token(&self) -> (r: String) {
        let mut out = String::from_str("typedef ");
        out.append(self.ty());
        out.append(" ");
        out.append(self.name());
        out.append(";\n");
        assert(out@ =~= typedef_text(self@));
        out
    }
}

impl<'a> Token for HeaderGuard<'a> {
    open spec fn spelling(&self) -> Seq<char> {
        guard_open_text(self@)
    }

    fn token(&self) -> (r: String) {
        let mut out = String::from_str("#ifndef ");
        out.append(self.tok());
        out.append("\n#define ");
        out.append(self.tok());
        out.append(" ");
        out.append(self.val());
        out.append("\n");
        assert(out@ =~= guard_open_text(self@));
        out
    }
}

impl<'a> EndToken for HeaderGuard<'a> {
    open spec fn end_spelling(&self) -> Seq<char> {
        guard_close_text()
    }

    fn end_token(&self) -> (r: String) {
        String::from_str("#endif\n")
    }
}

impl Token for CXX {
    open spec fn spelling(&self) -> Seq<char> {
        cxx_open_text(*self)
    }

    fn token(&self) -> (r: String) {
        let mut out = String::new();
        match self {
            CXX::C => {
                out.append("#ifdef __cplusplus\n#error \"This header can only be used by C\"\n#endif\n");
            },
            CXX::CXX => {
                out.append("#ifdef __cplusplus\nextern \"C\" {\n#endif\n");
            },
            CXX::CXXOnly => {
                out.append("#ifndef __cplusplus\n#error \"This header can only be used by C++\"\n#endif\n");
            },
        }
        assert(out@ =~= cxx_open_text(*self));
        out
    }
}

impl EndToken for CXX {
    open spec fn end_spelling(&self) -> Seq<char> {
        cxx_close_text(*self)
    }

    fn end_token(&self) -> (r: String) {
        let mut out = String::new();
        match self {
            CXX::CXX => {
                out.append("#ifdef __cplusplus\n}\n#endif\n");
            },
            _ => {},
        }
        assert(out@ =~= cxx_close_text(*self));
        out
    }
}

impl Token for String {
    open spec fn spelling(&self) -> Seq<char> {
        self@
    }

    fn token(&self) -> (r: String) {
        self.clone()
    }
}

impl<'s> Token for &'s str {
    open spec fn spelling(&self) -> Seq<char> {
        (*self)@
    }

    fn token(&self) -> (r: String) {
        String::from_str(*self)
    }
}

impl Token for u64 {
    open spec fn spelling(&self) -> Seq<char> {
        decimal(*self as nat) + "UL"@
    }

    fn token(&self) -> (r: String) {
        let mut s = String::new();
        push_decimal(&mut s, *self);
        s.append("UL");
        s
    }
}

impl Token for u32 {
    open spec fn spelling(&self) -> Seq<char> {
        decimal(*self as nat)
    }

    fn token(&self) -> (r: String) {
        let mut s = String::new();
        push_decimal(&mut s, *self as u64);
        s
    }
}

impl Token for u16 {
    open spec fn spelling(&self) -> Seq<char> {
        decimal(*self as nat)
    }

    fn token(&self) -> (r: String) {
        let mut s = String::new();
        push_decimal(&mut s, *self as u64);
        s
    }
}

impl Token for u8 {
    open spec fn spelling(&self) -> Seq<char> {
        decimal(*self as nat)
    }

    fn token(&self) -> (r: String) {
        let mut s = String::new();
        push_decimal(&mut s, *self as u64);
        s
    }
}

impl Token for i64 {
    open spec fn spelling(&self) -> Seq<char> {
        signed_decimal(*self as int) + "L"@
    }

    fn token(&self) -> (r: String) {
        let mut s = String::new();
        push_signed_decimal(&mut s, *self);
        s.append("L");
        s
    }
}

impl Token for i32 {
    open spec fn spelling(&self) -> Seq<char> {
        signed_decimal(*self as int)
    }

    fn token(&self) -> (r: String) {
        let mut s = String::new();
        push_signed_decimal(&mut s, *self as i64);
        s
    }
}

impl Token for i16 {
    open spec fn spelling(&self) -> Seq<char> {
        signed_decimal(*self as int)
    }

    fn token(&self) -> (r: String) {
        let mut s = String::new();
        push_signed_decimal(&mut s, *self as i64);
        s
    }
}

impl Token for i8 {
    open spec fn spelling(&self) -> Seq<char> {
        signed_decimal(*self as int)
    }

    fn token(&self) -> (r: String) {
        let mut s = String::new();
        push_signed_decimal(&mut s, *self as i64);
        s
    }
}

/// An address: `0x`, lower-case hexadecimal digits, then `UL`.
impl Token for usize {
    open spec fn spelling(&self) -> Seq<char> {
        "0x"@ + hex_lower(*self as nat) + "UL"@
    }

    fn token(&self) -> (r: String) {
        let mut s = String::from_str("0x");
        push_hex(&mut s, *self as u64);
        s.append("UL");
        s
    }
}

/// A character stands for itself, with no quotes and no escaping.
impl Token for char {
    open spec fn spelling(&self) -> Seq<char> {
        seq![*self]
    }

    fn token(&self) -> (r: String) {
        let mut s = String::new();
        s.push(*self);
        assert(s@ =~= seq![*self]);
        s
    }
}

/// Whether the text holds a decimal point.
pub open spec fn has_point(s: Seq<char>) -> bool {
    exists|i: int| 0 <= i < s.len() && s[i] == '.'
}

/// The text of a floating-point number with a decimal point: unchanged
/// when it holds one, else with `.` appended.
pub open spec fn with_point(s: Seq<char>) -> Seq<char> {
    if has_point(s) {
        s
    } else {
        s.push('.')
    }
}

fn contains_point(s: &str) -> (r: bool)
    ensures
        r == has_point(s@),
{
    let n = s.unicode_len();
    let mut i: usize = 0;
    while i < n
        invariant
            n == s@.len(),
            i <= n,
            forall|j: int| 0 <= j < i ==> s@[j] != '.',
        decreases n - i,
    {
        if s.get_char(i) == '.' {
            return true;
        }
        i += 1;
    }
    false
}

/// The literal of a 32-bit float, given the shortest decimal text that reads
/// back as the same value: a decimal point is added where it has none, then
/// the suffix `F`.
pub fn f32_literal(shortest: &str) -> (r: String)
    ensures
        r@ == with_point(shortest@) + "F"@,
{
    let mut s = String::from_str(shortest);
    if !contains_point(shortest) {
        s.push('.');
    }
    s.append("F");
    s
}

/// The literal of a 64-bit float, given the shortest decimal text that reads
/// back as the same value: a decimal point is added where it has none, and
/// no suffix.
pub fn f64_literal(shortest: &str) -> (r: String)
    ensures
        r@ == with_point(shortest@),
{
    let mut s = String::from_str(shortest);
    if !contains_point(shortest) {
        s.push('.');
    }
    s
}

/// Rendering a header depends on what it holds alone: two headers with the
/// same view render to the same text, so rendering one header twice gives
/// byte-identical output.
pub proof fn lemma_render_deterministic<'a, 'b>(a: Header<'a>, b: Header<'b>)
    requires
        a@ == b@,
    ensures
        a.spelling() == b.spelling(),
{
}

/// Of the three kinds of language support only the one for both C and C++
/// has a closing block; for C alone and for C++ alone the closing is empty.
pub proof fn lemma_only_cxx_closes(c: CXX)
    ensures
        c.end_spelling().len() == 0 <==> c != CXX::CXX,
{
    reveal_strlit("#ifdef __cplusplus\n}\n#endif\n");
}

} // verus!
