//! The traits that `#[enum_derive]` implements itself, the crate features that
//! enable them, and the names by which an argument selects them.

use vstd::prelude::*;

use crate::text::str_eq;

verus! {

/// The optional features of the crate that widen the set of supported traits.
#[derive(Clone, Copy, Debug, PartialEq, Eq, Structural)]
pub struct Features {
    pub std: bool,
    pub ops: bool,
    pub convert: bool,
    pub fmt: bool,
    pub transpose_methods: bool,
    pub futures03: bool,
    pub futures01: bool,
    pub rayon: bool,
    pub serde: bool,
    pub tokio1: bool,
    pub tokio03: bool,
    pub tokio02: bool,
    pub tokio01: bool,
    pub http_body1: bool,
    pub coroutine_trait: bool,
    pub fn_traits: bool,
    pub trusted_len: bool,
}

impl Features {
    /// The default feature set: only `std`.
    pub fn default_set() -> (r: Features)
        ensures
            r.std,
            !r.ops,
            !r.convert,
            !r.fmt,
            !r.transpose_methods,
            !r.futures03,
            !r.futures01,
            !r.rayon,
            !r.serde,
            !r.tokio1,
            !r.tokio03,
            !r.tokio02,
            !r.tokio01,
            !r.http_body1,
            !r.coroutine_trait,
            !r.fn_traits,
            !r.trusted_len,
    {
        Features {
            std: true,
            ops: false,
            convert: false,
            fmt: false,
            transpose_methods: false,
            futures03: false,
            futures01: false,
            rayon: false,
            serde: false,
            tokio1: false,
            tokio03: false,
            tokio02: false,
            tokio01: false,
            http_body1: false,
            coroutine_trait: false,
            fn_traits: false,
            trusted_len: false,
        }
    }

    /// Every feature enabled.
    pub fn all() -> (r: Features)
        ensures
            r.std,
            r.ops,
            r.convert,
            r.fmt,
            r.transpose_methods,
            r.futures03,
            r.futures01,
            r.rayon,
            r.serde,
            r.tokio1,
            r.tokio03,
            r.tokio02,
            r.tokio01,
            r.http_body1,
            r.coroutine_trait,
            r.fn_traits,
            r.trusted_len,
    {
        Features {
            std: true,
            ops: true,
            convert: true,
            fmt: true,
            transpose_methods: true,
            futures03: true,
            futures01: true,
            rayon: true,
            serde: true,
            tokio1: true,
            tokio03: true,
            tokio02: true,
            tokio01: true,
            http_body1: true,
            coroutine_trait: true,
            fn_traits: true,
            trusted_len: true,
        }
    }
}

/// A trait implementation that `#[enum_derive]` generates itself.
#[derive(Clone, Copy, Debug, PartialEq, Eq, Structural)]
pub enum DeriveKind {
    AsMut,
    AsRef,
    Debug,
    Display,
    Pointer,
    Binary,
    Octal,
    UpperHex,
    LowerHex,
    UpperExp,
    LowerExp,
    FmtWrite,
    Iterator,
    DoubleEndedIterator,
    ExactSizeIterator,
    FusedIterator,
    TrustedLen,
    Extend,
    Deref,
    DerefMut,
    Index,
    IndexMut,
    RangeBounds,
    Fn,
    FnMut,
    FnOnce,
    Coroutine,
    Future,
    IoRead,
    IoBufRead,
    IoSeek,
    IoWrite,
    Error,
    Transpose,
    Futures03Stream,
    Futures03Sink,
    Futures03AsyncRead,
    Futures03AsyncWrite,
    Futures03AsyncSeek,
    Futures03AsyncBufRead,
    Futures01Future,
    Futures01Stream,
    Futures01Sink,
    RayonParallelIterator,
    RayonIndexedParallelIterator,
    RayonParallelExtend,
    SerdeSerialize,
    Tokio1AsyncRead,
    Tokio1AsyncWrite,
    Tokio1AsyncSeek,
    Tokio1AsyncBufRead,
    Tokio03AsyncRead,
    Tokio03AsyncWrite,
    Tokio03AsyncSeek,
    Tokio03AsyncBufRead,
    Tokio02AsyncRead,
    Tokio02AsyncWrite,
    Tokio02AsyncSeek,
    Tokio02AsyncBufRead,
    Tokio01AsyncRead,
    Tokio01AsyncWrite,
    HttpBody1Body,
}

/// Whether the feature set enables the implementation of `k`.
pub open spec fn kind_enabled(f: Features, k: DeriveKind) -> bool {
    match k {
        DeriveKind::AsMut => f.convert,
        DeriveKind::AsRef => f.convert,
        DeriveKind::Debug => true,
        DeriveKind::Display => true,
        DeriveKind::Pointer => f.fmt,
        DeriveKind::Binary => f.fmt,
        DeriveKind::Octal => f.fmt,
        DeriveKind::UpperHex => f.fmt,
        DeriveKind::LowerHex => f.fmt,
        DeriveKind::UpperExp => f.fmt,
        DeriveKind::LowerExp => f.fmt,
        DeriveKind::FmtWrite => true,
        DeriveKind::Iterator => true,
        DeriveKind::DoubleEndedIterator => true,
        DeriveKind::ExactSizeIterator => true,
        DeriveKind::FusedIterator => true,
        DeriveKind::TrustedLen => f.trusted_len,
        DeriveKind::Extend => true,
        DeriveKind::Deref => f.ops,
        DeriveKind::DerefMut => f.ops,
        DeriveKind::Index => f.ops,
        DeriveKind::IndexMut => f.ops,
        DeriveKind::RangeBounds => f.ops,
        DeriveKind::Fn => f.fn_traits,
        DeriveKind::FnMut => f.fn_traits,
        DeriveKind::FnOnce => f.fn_traits,
        DeriveKind::Coroutine => f.coroutine_trait,
        DeriveKind::Future => true,
        DeriveKind::IoRead => f.std,
        DeriveKind::IoBufRead => f.std,
        DeriveKind::IoSeek => f.std,
        DeriveKind::IoWrite => f.std,
        DeriveKind::Error => f.std,
        DeriveKind::Transpose => f.transpose_methods,
        DeriveKind::Futures03Stream => f.futures03,
        DeriveKind::Futures03Sink => f.futures03,
        DeriveKind::Futures03AsyncRead => f.futures03,
        DeriveKind::Futures03AsyncWrite => f.futures03,
        DeriveKind::Futures03AsyncSeek => f.futures03,
        DeriveKind::Futures03AsyncBufRead => f.futures03,
        DeriveKind::Futures01Future => f.futures01,
        DeriveKind::Futures01Stream => f.futures01,
        DeriveKind::Futures01Sink => f.futures01,
        DeriveKind::RayonParallelIterator => f.rayon,
        DeriveKind::RayonIndexedParallelIterator => f.rayon,
        DeriveKind::RayonParallelExtend => f.rayon,
        DeriveKind::SerdeSerialize => f.serde,
        DeriveKind::Tokio1AsyncRead => f.tokio1,
        DeriveKind::Tokio1AsyncWrite => f.tokio1,
        DeriveKind::Tokio1AsyncSeek => f.tokio1,
        DeriveKind::Tokio1AsyncBufRead => f.tokio1,
        DeriveKind::Tokio03AsyncRead => f.tokio03,
        DeriveKind::Tokio03AsyncWrite => f.tokio03,
        DeriveKind::Tokio03AsyncSeek => f.tokio03,
        DeriveKind::Tokio03AsyncBufRead => f.tokio03,
        DeriveKind::Tokio02AsyncRead => f.tokio02,
        DeriveKind::Tokio02AsyncWrite => f.tokio02,
        DeriveKind::Tokio02AsyncSeek => f.tokio02,
        DeriveKind::Tokio02AsyncBufRead => f.tokio02,
        DeriveKind::Tokio01AsyncRead => f.tokio01,
        DeriveKind::Tokio01AsyncWrite => f.tokio01,
        DeriveKind::HttpBody1Body => f.http_body1,
    }
}

/// The argument names that select `k`; the first one is its primary name.
pub open spec fn kind_names(k: DeriveKind) -> Seq<Seq<char>> {
    match k {
        DeriveKind::AsMut => seq!["AsMut"@],
        DeriveKind::AsRef => seq!["AsRef"@],
        DeriveKind::Debug => seq!["Debug"@, "fmt::Debug"@],
        DeriveKind::Display => seq!["Display"@, "fmt::Display"@],
        DeriveKind::Pointer => seq!["fmt::Pointer"@],
        DeriveKind::Binary => seq!["fmt::Binary"@],
        DeriveKind::Octal => seq!["fmt::Octal"@],
        DeriveKind::UpperHex => seq!["fmt::UpperHex"@],
        DeriveKind::LowerHex => seq!["fmt::LowerHex"@],
        DeriveKind::UpperExp => seq!["fmt::UpperExp"@],
        DeriveKind::LowerExp => seq!["fmt::LowerExp"@],
        DeriveKind::FmtWrite => seq!["fmt::Write"@],
        DeriveKind::Iterator => seq!["Iterator"@],
        DeriveKind::DoubleEndedIterator => seq!["DoubleEndedIterator"@],
        DeriveKind::ExactSizeIterator => seq!["ExactSizeIterator"@],
        DeriveKind::FusedIterator => seq!["FusedIterator"@],
        DeriveKind::TrustedLen => seq!["TrustedLen"@],
        DeriveKind::Extend => seq!["Extend"@],
        DeriveKind::Deref => seq!["Deref"@],
        DeriveKind::DerefMut => seq!["DerefMut"@],
        DeriveKind::Index => seq!["Index"@],
        DeriveKind::IndexMut => seq!["IndexMut"@],
        DeriveKind::RangeBounds => seq!["RangeBounds"@],
        DeriveKind::Fn => seq!["Fn"@],
        DeriveKind::FnMut => seq!["FnMut"@],
        DeriveKind::FnOnce => seq!["FnOnce"@],
        DeriveKind::Coroutine => seq!["Coroutine"@],
        DeriveKind::Future => seq!["Future"@],
        DeriveKind::IoRead => seq!["Read"@, "io::Read"@],
        DeriveKind::IoBufRead => seq!["BufRead"@, "io::BufRead"@],
        DeriveKind::IoSeek => seq!["Seek"@, "io::Seek"@],
        DeriveKind::IoWrite => seq!["Write"@, "io::Write"@],
        DeriveKind::Error => seq!["Error"@],
        DeriveKind::Transpose => seq!["Transpose"@],
        DeriveKind::Futures03Stream => seq!["futures03::Stream"@],
        DeriveKind::Futures03Sink => seq!["futures03::Sink"@],
        DeriveKind::Futures03AsyncRead => seq!["futures03::AsyncRead"@],
        DeriveKind::Futures03AsyncWrite => seq!["futures03::AsyncWrite"@],
        DeriveKind::Futures03AsyncSeek => seq!["futures03::AsyncSeek"@],
        DeriveKind::Futures03AsyncBufRead => seq!["futures03::AsyncBufRead"@],
        DeriveKind::Futures01Future => seq!["futures01::Future"@],
        DeriveKind::Futures01Stream => seq!["futures01::Stream"@],
        DeriveKind::Futures01Sink => seq!["futures01::Sink"@],
        DeriveKind::RayonParallelIterator => seq!["rayon::ParallelIterator"@],
        DeriveKind::RayonIndexedParallelIterator => seq!["rayon::IndexedParallelIterator"@],
        DeriveKind::RayonParallelExtend => seq!["rayon::ParallelExtend"@],
        DeriveKind::SerdeSerialize => seq!["serde::Serialize"@],
        DeriveKind::Tokio1AsyncRead => seq!["tokio1::AsyncRead"@],
        DeriveKind::Tokio1AsyncWrite => seq!["tokio1::AsyncWrite"@],
        DeriveKind::Tokio1AsyncSeek => seq!["tokio1::AsyncSeek"@],
        DeriveKind::Tokio1AsyncBufRead => seq!["tokio1::AsyncBufRead"@],
        DeriveKind::Tokio03AsyncRead => seq!["tokio03::AsyncRead"@],
        DeriveKind::Tokio03AsyncWrite => seq!["tokio03::AsyncWrite"@],
        DeriveKind::Tokio03AsyncSeek => seq!["tokio03::AsyncSeek"@],
        DeriveKind::Tokio03AsyncBufRead => seq!["tokio03::AsyncBufRead"@],
        DeriveKind::Tokio02AsyncRead => seq!["tokio02::AsyncRead"@],
        DeriveKind::Tokio02AsyncWrite => seq!["tokio02::AsyncWrite"@],
        DeriveKind::Tokio02AsyncSeek => seq!["tokio02::AsyncSeek"@],
        DeriveKind::Tokio02AsyncBufRead => seq!["tokio02::AsyncBufRead"@],
        DeriveKind::Tokio01AsyncRead => seq!["tokio01::AsyncRead"@],
        DeriveKind::Tokio01AsyncWrite => seq!["tokio01::AsyncWrite"@],
        DeriveKind::HttpBody1Body => seq!["http_body1::Body"@],
    }
}

/// Whether the generated implementation has `Pin<&mut Self>` receivers, so that
/// the enum needs the structural pinning guards.
pub open spec fn kind_needs_pin(k: DeriveKind) -> bool {
    match k {
        DeriveKind::Coroutine | DeriveKind::Future | DeriveKind::Futures03Stream | DeriveKind::Futures03Sink | DeriveKind::Futures03AsyncRead | DeriveKind::Futures03AsyncWrite | DeriveKind::Futures03AsyncSeek | DeriveKind::Futures03AsyncBufRead | DeriveKind::Tokio1AsyncRead | DeriveKind::Tokio1AsyncWrite | DeriveKind::Tokio1AsyncSeek | DeriveKind::Tokio1AsyncBufRead | DeriveKind::Tokio03AsyncRead | DeriveKind::Tokio03AsyncWrite | DeriveKind::Tokio03AsyncSeek | DeriveKind::Tokio03AsyncBufRead | DeriveKind::Tokio02AsyncRead | DeriveKind::Tokio02AsyncWrite | DeriveKind::Tokio02AsyncSeek | DeriveKind::Tokio02AsyncBufRead | DeriveKind::HttpBody1Body => true,
        _ => false,
    }
}

/// Every supported implementation, in the order in which names are looked up.
pub open spec fn all_kinds() -> Seq<DeriveKind> {
    seq![
        DeriveKind::AsMut,
        DeriveKind::AsRef,
        DeriveKind::Debug,
        DeriveKind::Display,
        DeriveKind::Pointer,
        DeriveKind::Binary,
        DeriveKind::Octal,
        DeriveKind::UpperHex,
        DeriveKind::LowerHex,
        DeriveKind::UpperExp,
        DeriveKind::LowerExp,
        DeriveKind::FmtWrite,
        DeriveKind::Iterator,
        DeriveKind::DoubleEndedIterator,
        DeriveKind::ExactSizeIterator,
        DeriveKind::FusedIterator,
        DeriveKind::TrustedLen,
        DeriveKind::Extend,
        DeriveKind::Deref,
        DeriveKind::DerefMut,
        DeriveKind::Index,
        DeriveKind::IndexMut,
        DeriveKind::RangeBounds,
        DeriveKind::Fn,
        DeriveKind::FnMut,
        DeriveKind::FnOnce,
        DeriveKind::Coroutine,
        DeriveKind::Future,
        DeriveKind::IoRead,
        DeriveKind::IoBufRead,
        DeriveKind::IoSeek,
        DeriveKind::IoWrite,
        DeriveKind::Error,
        DeriveKind::Transpose,
        DeriveKind::Futures03Stream,
        DeriveKind::Futures03Sink,
        DeriveKind::Futures03AsyncRead,
        DeriveKind::Futures03AsyncWrite,
        DeriveKind::Futures03AsyncSeek,
        DeriveKind::Futures03AsyncBufRead,
        DeriveKind::Futures01Future,
        DeriveKind::Futures01Stream,
        DeriveKind::Futures01Sink,
        DeriveKind::RayonParallelIterator,
        DeriveKind::RayonIndexedParallelIterator,
        DeriveKind::RayonParallelExtend,
        DeriveKind::SerdeSerialize,
        DeriveKind::Tokio1AsyncRead,
        DeriveKind::Tokio1AsyncWrite,
        DeriveKind::Tokio1AsyncSeek,
        DeriveKind::Tokio1AsyncBufRead,
        DeriveKind::Tokio03AsyncRead,
        DeriveKind::Tokio03AsyncWrite,
        DeriveKind::Tokio03AsyncSeek,
        DeriveKind::Tokio03AsyncBufRead,
        DeriveKind::Tokio02AsyncRead,
        DeriveKind::Tokio02AsyncWrite,
        DeriveKind::Tokio02AsyncSeek,
        DeriveKind::Tokio02AsyncBufRead,
        DeriveKind::Tokio01AsyncRead,
        DeriveKind::Tokio01AsyncWrite,
        DeriveKind::HttpBody1Body,
    ]
}

/// The first of `ks` that `f` enables and that `s` names.
pub open spec fn first_supported(f: Features, s: Seq<char>, ks: Seq<DeriveKind>) -> Option<DeriveKind>
    decreases ks.len(),
{
    if ks.len() == 0 {
        None
    } else if kind_enabled(f, ks[0]) && kind_names(ks[0]).contains(s) {
        Some(ks[0])
    } else {
        first_supported(f, s, ks.drop_first())
    }
}

/// The implementation that the argument name `s` selects, if any.
pub open spec fn derive_for(f: Features, s: Seq<char>) -> Option<DeriveKind> {
    first_supported(f, s, all_kinds())
}

/// The names of `k` as a pair: the primary name and an optional second one.
pub open spec fn names_pair_view(r: (&'static str, Option<&'static str>)) -> Seq<Seq<char>> {
    match r.1 {
        None => seq![r.0@],
        Some(b) => seq![r.0@, b@],
    }
}

impl DeriveKind {
    /// The argument names that select this implementation.
    pub fn names(self) -> (r: (&'static str, Option<&'static str>))
        ensures
            names_pair_view(r) == kind_names(self),
    {
        match self {
            DeriveKind::AsMut => ("AsMut", None),
            DeriveKind::AsRef => ("AsRef", None),
            DeriveKind::Debug => ("Debug", Some("fmt::Debug")),
            DeriveKind::Display => ("Display", Some("fmt::Display")),
            DeriveKind::Pointer => ("fmt::Pointer", None),
            DeriveKind::Binary => ("fmt::Binary", None),
            DeriveKind::Octal => ("fmt::Octal", None),
            DeriveKind::UpperHex => ("fmt::UpperHex", None),
            DeriveKind::LowerHex => ("fmt::LowerHex", None),
            DeriveKind::UpperExp => ("fmt::UpperExp", None),
            DeriveKind::LowerExp => ("fmt::LowerExp", None),
            DeriveKind::FmtWrite => ("fmt::Write", None),
            DeriveKind::Iterator => ("Iterator", None),
            DeriveKind::DoubleEndedIterator => ("DoubleEndedIterator", None),
            DeriveKind::ExactSizeIterator => ("ExactSizeIterator", None),
            DeriveKind::FusedIterator => ("FusedIterator", None),
            DeriveKind::TrustedLen => ("TrustedLen", None),
            DeriveKind::Extend => ("Extend", None),
            DeriveKind::Deref => ("Deref", None),
            DeriveKind::DerefMut => ("DerefMut", None),
            DeriveKind::Index => ("Index", None),
            DeriveKind::IndexMut => ("IndexMut", None),
            DeriveKind::RangeBounds => ("RangeBounds", None),
            DeriveKind::Fn => ("Fn", None),
            DeriveKind::FnMut => ("FnMut", None),
            DeriveKind::FnOnce => ("FnOnce", None),
            DeriveKind::Coroutine => ("Coroutine", None),
            DeriveKind::Future => ("Future", None),
            DeriveKind::IoRead => ("Read", Some("io::Read")),
            DeriveKind::IoBufRead => ("BufRead", Some("io::BufRead")),
            DeriveKind::IoSeek => ("Seek", Some("io::Seek")),
            DeriveKind::IoWrite => ("Write", Some("io::Write")),
            DeriveKind::Error => ("Error", None),
            DeriveKind::Transpose => ("Transpose", None),
            DeriveKind::Futures03Stream => ("futures03::Stream", None),
            DeriveKind::Futures03Sink => ("futures03::Sink", None),
            DeriveKind::Futures03AsyncRead => ("futures03::AsyncRead", None),
            DeriveKind::Futures03AsyncWrite => ("futures03::AsyncWrite", None),
            DeriveKind::Futures03AsyncSeek => ("futures03::AsyncSeek", None),
            DeriveKind::Futures03AsyncBufRead => ("futures03::AsyncBufRead", None),
            DeriveKind::Futures01Future => ("futures01::Future", None),
            DeriveKind::Futures01Stream => ("futures01::Stream", None),
            DeriveKind::Futures01Sink => ("futures01::Sink", None),
            DeriveKind::RayonParallelIterator => ("rayon::ParallelIterator", None),
            DeriveKind::RayonIndexedParallelIterator => ("rayon::IndexedParallelIterator", None),
            DeriveKind::RayonParallelExtend => ("rayon::ParallelExtend", None),
            DeriveKind::SerdeSerialize => ("serde::Serialize", None),
            DeriveKind::Tokio1AsyncRead => ("tokio1::AsyncRead", None),
            DeriveKind::Tokio1AsyncWrite => ("tokio1::AsyncWrite", None),
            DeriveKind::Tokio1AsyncSeek => ("tokio1::AsyncSeek", None),
            DeriveKind::Tokio1AsyncBufRead => ("tokio1::AsyncBufRead", None),
            DeriveKind::Tokio03AsyncRead => ("tokio03::AsyncRead", None),
            DeriveKind::Tokio03AsyncWrite => ("tokio03::AsyncWrite", None),
            DeriveKind::Tokio03AsyncSeek => ("tokio03::AsyncSeek", None),
            DeriveKind::Tokio03AsyncBufRead => ("tokio03::AsyncBufRead", None),
            DeriveKind::Tokio02AsyncRead => ("tokio02::AsyncRead", None),
            DeriveKind::Tokio02AsyncWrite => ("tokio02::AsyncWrite", None),
            DeriveKind::Tokio02AsyncSeek => ("tokio02::AsyncSeek", None),
            DeriveKind::Tokio02AsyncBufRead => ("tokio02::AsyncBufRead", None),
            DeriveKind::Tokio01AsyncRead => ("tokio01::AsyncRead", None),
            DeriveKind::Tokio01AsyncWrite => ("tokio01::AsyncWrite", None),
            DeriveKind::HttpBody1Body => ("http_body1::Body", None),
        }
    }

    /// Whether `f` enables this implementation.
    pub fn is_enabled(self, f: &Features) -> (r: bool)
        ensures
            r == kind_enabled(*f, self),
    {
        match self {
            DeriveKind::AsMut => f.convert,
            DeriveKind::AsRef => f.convert,
            DeriveKind::Debug => true,
            DeriveKind::Display => true,
            DeriveKind::Pointer => f.fmt,
            DeriveKind::Binary => f.fmt,
            DeriveKind::Octal => f.fmt,
            DeriveKind::UpperHex => f.fmt,
            DeriveKind::LowerHex => f.fmt,
            DeriveKind::UpperExp => f.fmt,
            DeriveKind::LowerExp => f.fmt,
            DeriveKind::FmtWrite => true,
            DeriveKind::Iterator => true,
            DeriveKind::DoubleEndedIterator => true,
            DeriveKind::ExactSizeIterator => true,
            DeriveKind::FusedIterator => true,
            DeriveKind::TrustedLen => f.trusted_len,
            DeriveKind::Extend => true,
            DeriveKind::Deref => f.ops,
            DeriveKind::DerefMut => f.ops,
            DeriveKind::Index => f.ops,
            DeriveKind::IndexMut => f.ops,
            DeriveKind::RangeBounds => f.ops,
            DeriveKind::Fn => f.fn_traits,
            DeriveKind::FnMut => f.fn_traits,
            DeriveKind::FnOnce => f.fn_traits,
            DeriveKind::Coroutine => f.coroutine_trait,
            DeriveKind::Future => true,
            DeriveKind::IoRead => f.std,
            DeriveKind::IoBufRead => f.std,
            DeriveKind::IoSeek => f.std,
            DeriveKind::IoWrite => f.std,
            DeriveKind::Error => f.std,
            DeriveKind::Transpose => f.transpose_methods,
            DeriveKind::Futures03Stream => f.futures03,
            DeriveKind::Futures03Sink => f.futures03,
            DeriveKind::Futures03AsyncRead => f.futures03,
            DeriveKind::Futures03AsyncWrite => f.futures03,
            DeriveKind::Futures03AsyncSeek => f.futures03,
            DeriveKind::Futures03AsyncBufRead => f.futures03,
            DeriveKind::Futures01Future => f.futures01,
            DeriveKind::Futures01Stream => f.futures01,
            DeriveKind::Futures01Sink => f.futures01,
            DeriveKind::RayonParallelIterator => f.rayon,
            DeriveKind::RayonIndexedParallelIterator => f.rayon,
            DeriveKind::RayonParallelExtend => f.rayon,
            DeriveKind::SerdeSerialize => f.serde,
            DeriveKind::Tokio1AsyncRead => f.tokio1,
            DeriveKind::Tokio1AsyncWrite => f.tokio1,
            DeriveKind::Tokio1AsyncSeek => f.tokio1,
            DeriveKind::Tokio1AsyncBufRead => f.tokio1,
            DeriveKind::Tokio03AsyncRead => f.tokio03,
            DeriveKind::Tokio03AsyncWrite => f.tokio03,
            DeriveKind::Tokio03AsyncSeek => f.tokio03,
            DeriveKind::Tokio03AsyncBufRead => f.tokio03,
            DeriveKind::Tokio02AsyncRead => f.tokio02,
            DeriveKind::Tokio02AsyncWrite => f.tokio02,
            DeriveKind::Tokio02AsyncSeek => f.tokio02,
            DeriveKind::Tokio02AsyncBufRead => f.tokio02,
            DeriveKind::Tokio01AsyncRead => f.tokio01,
            DeriveKind::Tokio01AsyncWrite => f.tokio01,
            DeriveKind::HttpBody1Body => f.http_body1,
        }
    }

    /// Whether this implementation needs the structural pinning guards.
    pub fn needs_pin(self) -> (r: bool)
        ensures
            r == kind_needs_pin(self),
    {
        match self {
            DeriveKind::Coroutine | DeriveKind::Future | DeriveKind::Futures03Stream | DeriveKind::Futures03Sink | DeriveKind::Futures03AsyncRead | DeriveKind::Futures03AsyncWrite | DeriveKind::Futures03AsyncSeek | DeriveKind::Futures03AsyncBufRead | DeriveKind::Tokio1AsyncRead | DeriveKind::Tokio1AsyncWrite | DeriveKind::Tokio1AsyncSeek | DeriveKind::Tokio1AsyncBufRead | DeriveKind::Tokio03AsyncRead | DeriveKind::Tokio03AsyncWrite | DeriveKind::Tokio03AsyncSeek | DeriveKind::Tokio03AsyncBufRead | DeriveKind::Tokio02AsyncRead | DeriveKind::Tokio02AsyncWrite | DeriveKind::Tokio02AsyncSeek | DeriveKind::Tokio02AsyncBufRead | DeriveKind::HttpBody1Body => true,
            _ => false,
        }
    }
}

/// Every supported implementation, in lookup order.
pub fn all_kinds_vec() -> (r: Vec<DeriveKind>)
    ensures
        r@ == all_kinds(),
{
    vec![
        DeriveKind::AsMut,
        DeriveKind::AsRef,
        DeriveKind::Debug,
        DeriveKind::Display,
        DeriveKind::Pointer,
        DeriveKind::Binary,
        DeriveKind::Octal,
        DeriveKind::UpperHex,
        DeriveKind::LowerHex,
        DeriveKind::UpperExp,
        DeriveKind::LowerExp,
        DeriveKind::FmtWrite,
        DeriveKind::Iterator,
        DeriveKind::DoubleEndedIterator,
        DeriveKind::ExactSizeIterator,
        DeriveKind::FusedIterator,
        DeriveKind::TrustedLen,
        DeriveKind::Extend,
        DeriveKind::Deref,
        DeriveKind::DerefMut,
        DeriveKind::Index,
        DeriveKind::IndexMut,
        DeriveKind::RangeBounds,
        DeriveKind::Fn,
        DeriveKind::FnMut,
        DeriveKind::FnOnce,
        DeriveKind::Coroutine,
        DeriveKind::Future,
        DeriveKind::IoRead,
        DeriveKind::IoBufRead,
        DeriveKind::IoSeek,
        DeriveKind::IoWrite,
        DeriveKind::Error,
        DeriveKind::Transpose,
        DeriveKind::Futures03Stream,
        DeriveKind::Futures03Sink,
        DeriveKind::Futures03AsyncRead,
        DeriveKind::Futures03AsyncWrite,
        DeriveKind::Futures03AsyncSeek,
        DeriveKind::Futures03AsyncBufRead,
        DeriveKind::Futures01Future,
        DeriveKind::Futures01Stream,
        DeriveKind::Futures01Sink,
        DeriveKind::RayonParallelIterator,
        DeriveKind::RayonIndexedParallelIterator,
        DeriveKind::RayonParallelExtend,
        DeriveKind::SerdeSerialize,
        DeriveKind::Tokio1AsyncRead,
        DeriveKind::Tokio1AsyncWrite,
        DeriveKind::Tokio1AsyncSeek,
        DeriveKind::Tokio1AsyncBufRead,
        DeriveKind::Tokio03AsyncRead,
        DeriveKind::Tokio03AsyncWrite,
        DeriveKind::Tokio03AsyncSeek,
        DeriveKind::Tokio03AsyncBufRead,
        DeriveKind::Tokio02AsyncRead,
        DeriveKind::Tokio02AsyncWrite,
        DeriveKind::Tokio02AsyncSeek,
        DeriveKind::Tokio02AsyncBufRead,
        DeriveKind::Tokio01AsyncRead,
        DeriveKind::Tokio01AsyncWrite,
        DeriveKind::HttpBody1Body,
    ]
}


/// Whether `s` is one of the names in the pair `r`.
pub fn pair_names(r: (&'static str, Option<&'static str>), s: &str) -> (b: bool)
    ensures
        b == names_pair_view(r).contains(s@),
{
    let first = str_eq(s, r.0);
    let second = match r.1 {
        Some(x) => str_eq(s, x),
        None => false,
    };
    proof {
        let v = names_pair_view(r);
        if first {
            assert(v[0] == s@);
        }
        if second {
            assert(v[1] == s@);
        }
        if v.contains(s@) {
            let j = choose|j: int| 0 <= j < v.len() && v[j] == s@;
            assert(j == 0 || j == 1);
        }
    }
    first || second
}

/// The implementation that the argument name `s` selects under the features
/// `f`: the first supported trait, in lookup order, one of whose names is `s`.
pub fn get_derive(f: &Features, s: &str) -> (r: Option<DeriveKind>)
    ensures
        r == derive_for(*f, s@),
{
    let ks = all_kinds_vec();
    let mut i: usize = 0;
    assert(all_kinds().skip(0) =~= all_kinds());
    while i < ks.len()
        invariant
            ks@ == all_kinds(),
            i <= ks.len(),
            derive_for(*f, s@) == first_supported(*f, s@, all_kinds().skip(i as int)),
        decreases ks.len() - i,
    {
        let k = ks[i];
        let rest = Ghost(all_kinds().skip(i as int));
        assert(rest@[0] == k);
        assert(rest@.drop_first() =~= all_kinds().skip(i + 1));
        if k.is_enabled(f) && pair_names(k.names(), s) {
            return Some(k);
        }
        i = i + 1;
    }
    None
}

/// The traits that the trait named `s` requires, under the features `f`.
pub open spec fn trait_deps(f: Features, s: Seq<char>) -> Option<Seq<Seq<char>>> {
    if s == "Copy"@ {
        Some(seq!["Clone"@])
    } else if s == "Eq"@ || s == "PartialOrd"@ {
        Some(seq!["PartialEq"@])
    } else if s == "Ord"@ {
        Some(seq!["PartialOrd"@, "Eq"@, "PartialEq"@])
    } else if f.ops && s == "DerefMut"@ {
        Some(seq!["Deref"@])
    } else if f.ops && s == "IndexMut"@ {
        Some(seq!["Index"@])
    } else if f.fn_traits && s == "Fn"@ {
        Some(seq!["FnMut"@, "FnOnce"@])
    } else if f.fn_traits && s == "FnMut"@ {
        Some(seq!["FnOnce"@])
    } else if s == "DoubleEndedIterator"@ || s == "ExactSizeIterator"@ || s == "FusedIterator"@ {
        Some(seq!["Iterator"@])
    } else if f.trusted_len && s == "TrustedLen"@ {
        Some(seq!["Iterator"@])
    } else if f.std && (s == "BufRead"@ || s == "io::BufRead"@) {
        Some(seq!["Read"@])
    } else if f.std && s == "Error"@ {
        Some(seq!["Display"@, "Debug"@])
    } else if f.rayon && s == "rayon::IndexedParallelIterator"@ {
        Some(seq!["rayon::ParallelIterator"@])
    } else {
        None
    }
}

/// The views of a sequence of string slices.
pub open spec fn strs_view(v: Seq<&'static str>) -> Seq<Seq<char>> {
    v.map_values(|x: &'static str| x@)
}

/// The traits that the trait named `s` requires, under the features `f`.
pub fn get_trait_deps(f: &Features, s: &str) -> (r: Option<Vec<&'static str>>)
    ensures
        match r {
            None => trait_deps(*f, s@) is None,
            Some(v) => trait_deps(*f, s@) == Some(strs_view(v@)),
        },
{
    let r: Vec<&'static str> = if str_eq(s, "Copy") {
        vec!["Clone"]
    } else if str_eq(s, "Eq") || str_eq(s, "PartialOrd") {
        vec!["PartialEq"]
    } else if str_eq(s, "Ord") {
        vec!["PartialOrd", "Eq", "PartialEq"]
    } else if f.ops && str_eq(s, "DerefMut") {
        vec!["Deref"]
    } else if f.ops && str_eq(s, "IndexMut") {
        vec!["Index"]
    } else if f.fn_traits && str_eq(s, "Fn") {
        vec!["FnMut", "FnOnce"]
    } else if f.fn_traits && str_eq(s, "FnMut") {
        vec!["FnOnce"]
    } else if str_eq(s, "DoubleEndedIterator") || str_eq(s, "ExactSizeIterator") || str_eq(
        s,
        "FusedIterator",
    ) {
        vec!["Iterator"]
    } else if f.trusted_len && str_eq(s, "TrustedLen") {
        vec!["Iterator"]
    } else if f.std && (str_eq(s, "BufRead") || str_eq(s, "io::BufRead")) {
        vec!["Read"]
    } else if f.std && str_eq(s, "Error") {
        vec!["Display", "Debug"]
    } else if f.rayon && str_eq(s, "rayon::IndexedParallelIterator") {
        vec!["rayon::ParallelIterator"]
    } else {
        return None;
    };
    assert(strs_view(r@) =~= trait_deps(*f, s@).unwrap());
    Some(r)
}

/// The other name of a trait that has two names among the supported ones
/// (`Debug` and `fmt::Debug`, and so on), under the features `f`.
pub open spec fn alias_of(f: Features, s: Seq<char>) -> Option<Seq<char>> {
    if s == "Debug"@ {
        Some("fmt::Debug"@)
    } else if s == "fmt::Debug"@ {
        Some("Debug"@)
    } else if s == "Display"@ {
        Some("fmt::Display"@)
    } else if s == "fmt::Display"@ {
        Some("Display"@)
    } else if f.std && s == "Read"@ {
        Some("io::Read"@)
    } else if f.std && s == "io::Read"@ {
        Some("Read"@)
    } else if f.std && s == "BufRead"@ {
        Some("io::BufRead"@)
    } else if f.std && s == "io::BufRead"@ {
        Some("BufRead"@)
    } else if f.std && s == "Seek"@ {
        Some("io::Seek"@)
    } else if f.std && s == "io::Seek"@ {
        Some("Seek"@)
    } else if f.std && s == "Write"@ {
        Some("io::Write"@)
    } else if f.std && s == "io::Write"@ {
        Some("Write"@)
    } else {
        None
    }
}

/// The other name of `s`, if `s` is one of two names of a supported trait.
pub fn get_alias(f: &Features, s: &str) -> (r: Option<&'static str>)
    ensures
        match r {
            None => alias_of(*f, s@) is None,
            Some(a) => alias_of(*f, s@) == Some(a@),
        },
{
    if str_eq(s, "Debug") {
        Some("fmt::Debug")
    } else if str_eq(s, "fmt::Debug") {
        Some("Debug")
    } else if str_eq(s, "Display") {
        Some("fmt::Display")
    } else if str_eq(s, "fmt::Display") {
        Some("Display")
    } else if f.std && str_eq(s, "Read") {
        Some("io::Read")
    } else if f.std && str_eq(s, "io::Read") {
        Some("Read")
    } else if f.std && str_eq(s, "BufRead") {
        Some("io::BufRead")
    } else if f.std && str_eq(s, "io::BufRead") {
        Some("BufRead")
    } else if f.std && str_eq(s, "Seek") {
        Some("io::Seek")
    } else if f.std && str_eq(s, "io::Seek") {
        Some("Seek")
    } else if f.std && str_eq(s, "Write") {
        Some("io::Write")
    } else if f.std && str_eq(s, "io::Write") {
        Some("Write")
    } else {
        None
    }
}

} // verus!
