//! The banner at the top of the page: whether it shows, and its colours.

use vstd::prelude::*;
use crate::models::BannerVariant;
use crate::text::owned;

verus! {

/// The background, border and shadow colours of a banner kind.
pub open spec fn colors_spec(variant: BannerVariant) -> (Seq<char>, Seq<char>, Seq<char>) {
    match variant {
        BannerVariant::Error => (
            "rgba(220, 38, 38, 0.25)"@,
            "rgba(220, 38, 38, 0.4)"@,
            "0 4px 20px rgba(220, 38, 38, 0.3)"@,
        ),
        BannerVariant::Success => (
            "rgba(22, 163, 74, 0.25)"@,
            "rgba(22, 163, 74, 0.4)"@,
            "0 4px 20px rgba(22, 163, 74, 0.3)"@,
        ),
    }
}

/// The background, border and shadow colours of a banner kind: red for an
/// error, green for a success.
pub fn banner_colors(variant: BannerVariant) -> (c: (&'static str, &'static str, &'static str))
    ensures
        (c.0@, c.1@, c.2@) == colors_spec(variant),
{
    match variant {
        BannerVariant::Error => (
            "rgba(220, 38, 38, 0.25)",
            "rgba(220, 38, 38, 0.4)",
            "0 4px 20px rgba(220, 38, 38, 0.3)",
        ),
        BannerVariant::Success => (
            "rgba(22, 163, 74, 0.25)",
            "rgba(22, 163, 74, 0.4)",
            "0 4px 20px rgba(22, 163, 74, 0.3)",
        ),
    }
}

/// The style's text up to the border colour.
pub const STYLE_HEAD: &'static str = "\n            position: fixed;\n            top: 1rem;\n            left: 50%;\n            transform: translateX(-50%);\n            z-index: 1000;\n            display: flex;\n            align-items: center;\n            gap: 1rem;\n            padding: 0.75rem 1.25rem;\n            border-radius: 0.5rem;\n            border: 1px solid ";

/// The style's text between the border and the background colours.
pub const STYLE_BEFORE_BACKGROUND: &'static str = ";\n            background: ";

/// The style's text between the background colour and the shadow.
pub const STYLE_BEFORE_SHADOW: &'static str = ";\n            backdrop-filter: blur(12px);\n            -webkit-backdrop-filter: blur(12px);\n            color: #fff;\n            font-weight: 500;\n            box-shadow: ";

/// The style's text after the shadow.
pub const STYLE_TAIL: &'static str = ";\n            max-width: 90vw;\n        ";

/// The banner's inline style: fixed at the top centre, with the kind's
/// colours.
pub open spec fn style_spec(variant: BannerVariant) -> Seq<char> {
    let (bg, border, shadow) = colors_spec(variant);
    STYLE_HEAD@ + border + STYLE_BEFORE_BACKGROUND@ + bg + STYLE_BEFORE_SHADOW@ + shadow + STYLE_TAIL@
}

/// The banner's inline style (see [`style_spec`]).
pub fn banner_style(variant: BannerVariant) -> (s: String)
    ensures
        s@ == style_spec(variant),
{
    let (bg, border, shadow) = banner_colors(variant);
    let mut s = owned(STYLE_HEAD);
    s.append(border);
    s.append(STYLE_BEFORE_BACKGROUND);
    s.append(bg);
    s.append(STYLE_BEFORE_SHADOW);
    s.append(shadow);
    s.append(STYLE_TAIL);
    s
}

/// A shown banner: its message and its style.
#[derive(Debug, PartialEq, Eq)]
pub struct BannerContent {
    pub message: String,
    pub style: String,
}

/// What the banner shows: nothing without a message; else the message,
/// styled for the kind.
pub fn banner_content(message: &Option<String>, variant: BannerVariant) -> (r: Option<BannerContent>)
    ensures
        match message {
            None => r is None,
            Some(m) => r matches Some(c) && c.message@ == m@ && c.style@ == style_spec(variant),
        },
{
    match message {
        None => None,
        Some(m) => Some(BannerContent { message: m.clone(), style: banner_style(variant) }),
    }
}

} // verus!
