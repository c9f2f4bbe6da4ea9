//! CSS styling: the built-in themes and which stylesheet is used.

use vstd::prelude::*;

verus! {

/// Default CSS styles.
pub const DEFAULT_CSS: &'static str = r#"
/* Waygreet Default Theme */

/* Main window */
window {
    background-color: #1e1e2e;
    color: #cdd6f4;
}

/* Title styles */
.title-1 {
    font-size: 32px;
    font-weight: bold;
    margin-bottom: 16px;
}

.title-2 {
    font-size: 24px;
    font-weight: 600;
    margin-bottom: 8px;
}

/* Caption/label styles */
.caption {
    font-size: 12px;
    opacity: 0.8;
}

.dim-label {
    opacity: 0.6;
}

/* Error message */
.error {
    color: #f38ba8;
    font-weight: 500;
    padding: 8px 12px;
    background-color: rgba(243, 139, 168, 0.1);
    border-radius: 6px;
    margin-bottom: 8px;
}

/* Entry fields */
entry, password entry {
    padding: 12px 16px;
    border-radius: 8px;
    background-color: #313244;
    color: #cdd6f4;
    border: 2px solid transparent;
    font-size: 16px;
    min-height: 24px;
}

entry:focus, passwordentry:focus {
    border-color: #89b4fa;
    outline: none;
}

entry:disabled, passwordentry:disabled {
    opacity: 0.5;
}

/* Buttons */
button {
    padding: 12px 24px;
    border-radius: 8px;
    font-size: 16px;
    font-weight: 500;
    background-color: #45475a;
    color: #cdd6f4;
    border: none;
}

button:hover {
    background-color: #585b70;
}

button:active {
    background-color: #6c7086;
}

button:focus {
    outline: 2px solid #89b4fa;
    outline-offset: 2px;
}

button:disabled {
    opacity: 0.5;
}

/* Suggested action (primary button) */
button.suggested-action {
    background-color: #89b4fa;
    color: #1e1e2e;
}

button.suggested-action:hover {
    background-color: #b4befe;
}

/* Destructive action */
button.destructive-action {
    background-color: #f38ba8;
    color: #1e1e2e;
}

button.destructive-action:hover {
    background-color: #eba0ac;
}

/* Pill-shaped button */
button.pill {
    border-radius: 9999px;
    padding: 12px 32px;
}

/* Circular button */
button.circular {
    border-radius: 50%;
    padding: 12px;
    min-width: 48px;
    min-height: 48px;
}

/* Dropdown */
dropdown {
    padding: 8px 16px;
    border-radius: 8px;
    background-color: #313244;
    color: #cdd6f4;
}

dropdown:focus {
    outline: 2px solid #89b4fa;
}

/* Focus indicators for accessibility */
*:focus-visible {
    outline: 3px solid #89b4fa;
    outline-offset: 2px;
}
"#;

/// High contrast CSS.
pub const HIGH_CONTRAST_CSS: &'static str = r#"
/* High Contrast Theme */

window {
    background-color: #000000;
    color: #ffffff;
}

.error {
    color: #ff6666;
    background-color: #330000;
    border: 2px solid #ff6666;
}

entry, passwordentry {
    background-color: #000000;
    color: #ffffff;
    border: 3px solid #ffffff;
}

entry:focus, passwordentry:focus {
    border-color: #00ffff;
}

button {
    background-color: #000000;
    color: #ffffff;
    border: 3px solid #ffffff;
}

button:hover {
    background-color: #333333;
}

button:focus {
    border-color: #00ffff;
    outline: none;
}

button.suggested-action {
    background-color: #ffffff;
    color: #000000;
}

button.destructive-action {
    background-color: #ff0000;
    color: #ffffff;
    border-color: #ff0000;
}

dropdown {
    background-color: #000000;
    color: #ffffff;
    border: 3px solid #ffffff;
}

*:focus-visible {
    outline: 4px solid #00ffff;
    outline-offset: 2px;
}
"#;

/// Get the default CSS content.
pub fn get_default_css() -> (res: &'static str)
    ensures
        res == DEFAULT_CSS,
{
    DEFAULT_CSS
}

/// Get the high contrast CSS content.
pub fn get_high_contrast_css() -> (res: &'static str)
    ensures
        res == HIGH_CONTRAST_CSS,
{
    HIGH_CONTRAST_CSS
}

/// The configured stylesheet file after the command line's `--style`: the given path when
/// there is one, else the configured file.
pub fn css_file_with_override(configured: &str, style_override: Option<&str>) -> (res: String)
    ensures
        res@ == (match style_override {
            Some(p) => p@,
            None => configured@,
        }),
{
    match style_override {
        Some(p) => String::from_str(p),
        None => String::from_str(configured),
    }
}

/// Where the stylesheet comes from.
#[derive(Debug, Clone)]
pub enum CssSource {
    /// The built-in high contrast theme.
    HighContrast,
    /// The stylesheet in this file.
    File(String),
    /// The built-in default theme.
    Default,
}

/// Where the stylesheet comes from, as plain values.
pub enum CssSourceView {
    HighContrast,
    File(Seq<char>),
    Default,
}

impl View for CssSource {
    type V = CssSourceView;

    open spec fn view(&self) -> CssSourceView {
        match self {
            CssSource::HighContrast => CssSourceView::HighContrast,
            CssSource::File(p) => CssSourceView::File(p@),
            CssSource::Default => CssSourceView::Default,
        }
    }
}

/// The stylesheet chosen: high contrast when asked for, else the stylesheet given on the
/// command line, else the configured file when it exists, else the default theme.
pub open spec fn chosen_css(high_contrast: bool, style_override: Option<Seq<char>>, css_file: Seq<char>, css_file_exists: bool) -> CssSourceView {
    if high_contrast {
        CssSourceView::HighContrast
    } else if style_override is Some {
        CssSourceView::File(style_override->0)
    } else if css_file.len() > 0 && css_file_exists {
        CssSourceView::File(css_file)
    } else {
        CssSourceView::Default
    }
}

/// Decides which stylesheet is loaded.
pub fn css_source(high_contrast: bool, style_override: Option<&str>, css_file: &str, css_file_exists: bool) -> (res: CssSource)
    ensures
        res@ == chosen_css(
            high_contrast,
            match style_override {
                Some(p) => Some(p@),
                None => None,
            },
            css_file@,
            css_file_exists,
        ),
{
    if high_contrast {
        CssSource::HighContrast
    } else if let Some(path) = style_override {
        CssSource::File(String::from_str(path))
    } else if !css_file.is_empty() && css_file_exists {
        CssSource::File(String::from_str(css_file))
    } else {
        CssSource::Default
    }
}

} // verus!
