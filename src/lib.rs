//! ccgen
//!
//! Holds the structural content of a C header (typedefs, macros, function
//! declarations, an optional include guard and the dialect wrapping) and
//! renders it, through the `tok` module, into the exact text of the header.

use vstd::prelude::*;

pub mod numeral;
pub mod tok;

verus! {

/// Language support of a header.
#[derive(Clone, Copy, PartialEq, Eq, Structural, Hash, Debug, Default)]
pub enum CXX {
    /// Header only supports C
    C,
    /// Header supports both C and C++
    #[default]
    CXX,
    /// Header only supports C++ (the library is responsible for C++ name mangling)
    CXXOnly,
}

/// Arity of a function.
#[derive(Clone, Copy, PartialEq, Eq, Structural, Hash, Debug, Default)]
pub enum Variadic {
    /// function takes a fixed number of parameters
    #[default]
    Nary,
    /// function takes a variable number of parameters
    Variadic,
}

/// What a typedef holds: its name and the spelling of the aliased type.
pub struct TypeView {
    pub name: Seq<char>,
    pub ty: Seq<char>,
}

/// Typedef
#[derive(Clone, Copy, Hash, Debug, Default)]
pub struct Type<'a> {
    name: &'a str,
    ty: &'a str,
}

impl<'a> View for Type<'a> {
    type V = TypeView;

    closed spec fn view(&self) -> TypeView {
        TypeView { name: self.name@, ty: self.ty@ }
    }
}

impl<'a> Type<'a> {
    /// Create new typedef
    ///
    /// name - name of typedef
    ///
    /// ty - type of typedef
    pub fn new(name: &'a str, ty: &'a str) -> (r: Self)
        ensures
            r@ == (TypeView { name: name@, ty: ty@ }),
    {
        Self { name, ty }
    }

    /// name of typedef
    pub fn name(&self) -> (r: &'a str)
        ensures
            r@ == self@.name,
    {
        self.name
    }

    /// type of typedef
    pub fn ty(&self) -> (r: &'a str)
        ensures
            r@ == self@.ty,
    {
        self.ty
    }
}

/// What a header guard holds: the guard macro and its value.
pub struct GuardView {
    pub tok: Seq<char>,
    pub val: Seq<char>,
}

/// Header guard
#[derive(Clone, Copy, Hash, Debug, Default)]
pub struct HeaderGuard<'a> {
    tok: &'a str,
    val: &'a str,
}

impl<'a> View for HeaderGuard<'a> {
    type V = GuardView;

    closed spec fn view(&self) -> GuardView {
        GuardView { tok: self.tok@, val: self.val@ }
    }
}

impl<'a> HeaderGuard<'a> {
    /// Create new header guard
    ///
    /// tok - name of guard token
    ///
    /// val - value of guard token
    pub fn new(tok: &'a str, val: &'a str) -> (r: Self)
        ensures
            r@ == (GuardView { tok: tok@, val: val@ }),
    {
        Self { tok, val }
    }

    /// guard token
    pub fn tok(&self) -> (r: &'a str)
        ensures
            r@ == self@.tok,
    {
        self.tok
    }

    /// value of guard token
    pub fn val(&self) -> (r: &'a str)
        ensures
            r@ == self@.val,
    {
        self.val
    }
}

/// The spellings held by a sequence of string slices.
pub open spec fn strs_view<'a>(s: Seq<&'a str>) -> Seq<Seq<char>> {
    s.map_values(|p: &'a str| p@)
}

/// What a function declaration holds.
pub struct FuncView {
    pub out: Seq<char>,
    pub name: Seq<char>,
    pub params: Seq<Seq<char>>,
    pub va: Variadic,
}

/// Function
#[derive(Clone, Copy, Hash, Debug, Default)]
pub struct Func<'a> {
    out: &'a str,
    name: &'a str,
    params: &'a [&'a str],
    va: Variadic,
}

impl<'a> View for Func<'a> {
    type V = FuncView;

    closed spec fn view(&self) -> FuncView {
        FuncView { out: self.out@, name: self.name@, params: strs_view(self.params@), va: self.va }
    }
}

impl<'a> Func<'a> {
    /// Create new function
    ///
    /// out - output type
    ///
    /// name - name of function
    ///
    /// params - parameters of function
    ///
    /// va - arity of function
    pub fn new(out: &'a str, name: &'a str, params: &'a [&'a str], va: Variadic) -> (r: Self)
        ensures
            r@ == (FuncView { out: out@, name: name@, params: strs_view(params@), va }),
    {
        Self { out, name, params, va }
    }

    /// output of function
    pub fn out(&self) -> (r: &'a str)
        ensures
            r@ == self@.out,
    {
        self.out
    }

    /// name of function
    pub fn name(&self) -> (r: &'a str)
        ensures
            r@ == self@.name,
    {
        self.name
    }

    /// parameters of function
    pub fn params(&self) -> (r: &'a [&'a str])
        ensures
            strs_view(r@) == self@.params,
    {
        self.params
    }

    /// arity of function
    pub fn va(&self) -> (r: Variadic)
        ensures
            r == self@.va,
    {
        self.va
    }
}

/// What a macro definition holds: its token (with any parameter list) and value.
pub struct MacroView {
    pub tok: Seq<char>,
    pub val: Seq<char>,
}

/// Macro
#[derive(Clone, Copy, Hash, Debug, Default)]
pub struct Macro<'a> {
    tok: &'a str,
    val: &'a str,
}

impl<'a> View for Macro<'a> {
    type V = MacroView;

    closed spec fn view(&self) -> MacroView {
        MacroView { tok: self.tok@, val: self.val@ }
    }
}

impl<'a> Macro<'a> {
    /// Create new macro
    ///
    /// tok - macro token (contains parameters if function macro)
    ///
    /// val - value of token
    pub fn new(tok: &'a str, val: &'a str) -> (r: Self)
        ensures
            r@ == (MacroView { tok: tok@, val: val@ }),
    {
        Self { tok, val }
    }

    /// tok string
    pub fn tok(&self) -> (r: &'a str)
        ensures
            r@ == self@.tok,
    {
        self.tok
    }

    /// val string
    pub fn val(&self) -> (r: &'a str)
        ensures
            r@ == self@.val,
    {
        self.val
    }
}

/// The spelling held by an optional string slice.
pub open spec fn opt_str_view<'a>(o: Option<&'a str>) -> Option<Seq<char>> {
    match o {
        Some(s) => Some(s@),
        None => None,
    }
}

/// What a header holds.
pub struct HeaderView {
    pub path: Option<Seq<char>>,
    pub name: Seq<char>,
    pub guard: Option<GuardView>,
    pub funcs: Seq<FuncView>,
    pub macros: Seq<MacroView>,
    pub types: Seq<TypeView>,
    pub cxx: CXX,
    pub extra: Option<Seq<char>>,
    pub post_extra: Option<Seq<char>>,
}

/// The view of an optional header guard.
pub open spec fn opt_guard_view<'a>(o: Option<HeaderGuard<'a>>) -> Option<GuardView> {
    match o {
        Some(g) => Some(g@),
        None => None,
    }
}

/// The views of a sequence of function declarations.
pub open spec fn funcs_view<'a>(s: Seq<Func<'a>>) -> Seq<FuncView> {
    s.map_values(|f: Func<'a>| f@)
}

/// The views of a sequence of macro definitions.
pub open spec fn macros_view<'a>(s: Seq<Macro<'a>>) -> Seq<MacroView> {
    s.map_values(|m: Macro<'a>| m@)
}

/// The views of a sequence of typedefs.
pub open spec fn types_view<'a>(s: Seq<Type<'a>>) -> Seq<TypeView> {
    s.map_values(|t: Type<'a>| t@)
}

/// Header
#[derive(Clone, Copy, Hash, Debug, Default)]
pub struct Header<'a> {
    path: Option<&'a str>,
    name: &'a str,
    guard: Option<HeaderGuard<'a>>,
    funcs: &'a [Func<'a>],
    macros: &'a [Macro<'a>],
    types: &'a [Type<'a>],
    cxx: CXX,
    extra: Option<&'a str>,
    post_extra: Option<&'a str>,
}

impl<'a> View for Header<'a> {
    type V = HeaderView;

    closed spec fn view(&self) -> HeaderView {
        HeaderView {
            path: opt_str_view(self.path),
            name: self.name@,
            guard: opt_guard_view(self.guard),
            funcs: funcs_view(self.funcs@),
            macros: macros_view(self.macros@),
            types: types_view(self.types@),
            cxx: self.cxx,
            extra: opt_str_view(self.extra),
            post_extra: opt_str_view(self.post_extra),
        }
    }
}

impl<'a> Header<'a> {
    /// Create new header
    ///
    /// path - path after include/
    ///
    /// name - name of header
    ///
    /// guard - header guard
    ///
    /// funcs - functions
    ///
    /// macros - macros
    ///
    /// types - typedefs
    ///
    /// cxx - language support
    ///
    /// extra - other symbols
    ///
    /// post_extra - other symbols (after end of include guard)
    pub fn new(
        path: Option<&'a str>,
        name: &'a str,
        guard: Option<HeaderGuard<'a>>,
        funcs: &'a [Func<'a>],
        macros: &'a [Macro<'a>],
        types: &'a [Type<'a>],
        cxx: CXX,
        extra: Option<&'a str>,
        post_extra: Option<&'a str>,
    ) -> (r: Self)
        ensures
            r@ == (HeaderView {
                path: opt_str_view(path),
                name: name@,
                guard: opt_guard_view(guard),
                funcs: funcs_view(funcs@),
                macros: macros_view(macros@),
                types: types_view(types@),
                cxx,
                extra: opt_str_view(extra),
                post_extra: opt_str_view(post_extra),
            }),
    {
        Self { path, name, guard, funcs, macros, types, cxx, extra, post_extra }
    }

    /// path after include/
    pub fn path(&self) -> (r: Option<&'a str>)
        ensures
            opt_str_view(r) == self@.path,
    {
        self.path
    }

    /// name of header
    pub fn name(&self) -> (r: &'a str)
        ensures
            r@ == self@.name,
    {
        self.name
    }

    /// header guard
    pub fn guard(&self) -> (r: Option<HeaderGuard>)
        ensures
            opt_guard_view(r) == self@.guard,
    {
        self.guard
    }

    /// functions
    pub fn funcs(&self) -> (r: &'a [Func<'a>])
        ensures
            funcs_view(r@) == self@.funcs,
    {
        self.funcs
    }

    /// macros
    pub fn macros(&self) -> (r: &'a [Macro<'a>])
        ensures
            macros_view(r@) == self@.macros,
    {
        self.macros
    }

    /// typedefs
    pub fn types(&self) -> (r: &'a [Type<'a>])
        ensures
            types_view(r@) == self@.types,
    {
        self.types
    }

    /// language support
    pub fn cxx(&self) -> (r: CXX)
        ensures
            r == self@.cxx,
    {
        self.cxx
    }

    /// other symbols
    pub fn extra(&self) -> (r: Option<&'a str>)
        ensures
            opt_str_view(r) == self@.extra,
    {
        self.extra
    }

    /// other symbols (after header guard)
    pub fn post_extra(&self) -> (r: Option<&'a str>)
        ensures
            opt_str_view(r) == self@.post_extra,
    {
        self.post_extra
    }
}

} // verus!
