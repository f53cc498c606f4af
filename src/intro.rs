//! Texts shown on first use and before registering, wrapped for the terminal.
use vstd::prelude::*;
use crate::report::lines_view;

verus! {

/// Column at which the texts are wrapped.
pub const WRAP_WIDTH: usize = 75;

/// The notice shown once, on first use, as written (indented).
pub const WELCOME_TEXT: &'static str = "
    ---------------------------------
    ✨✨✨ Welcome to aido! ✨✨✨

    IMPORTANT:

    Aido uses a deeplearning model to automatically generate the command that you are looking for. Auto-generated commands can be dangerous because they can easily include syntax errors that can cause problems when the commands are executed. In addition, auto-generated commands can sometimes generate unexpected results that can be difficult to troubleshoot. Please always check the command before executing it.
    Please never input any sensitive data!

    By using this service, you agree that getaido.app is not to be held liable for any decisions you make or commands executed based on any of our services.

    This welcome message will only be shown once on the first usage. If you encounter any issues please send us an email to info@getaido.app.
    To see how to use aido type `aido` or `aido --help` into your console.
    ---------------------------------
    ";

/// What registering gives.
pub const REGISTER_OFFER_TEXT: &'static str = "\nRegistration is 100% free and we will never send you spam or sell your data!\nBy registering you get 20 free API calls per day.\n";

/// What registering asks for.
pub const REGISTER_STEPS_TEXT: &'static str = "Please fill in your email address and your desired password you will receive a confirmation mail, after confirming you're email address you can login with `aido login` in the terminal.\n";

/// `text` with the whitespace common to the start of all its lines removed,
/// as textwrap's `dedent` gives it.
pub uninterp spec fn dedented(text: Seq<char>) -> Seq<char>;

/// `text` wrapped into lines of at most `width` columns, as textwrap's `fill`
/// gives it.
pub uninterp spec fn filled(text: Seq<char>, width: nat) -> Seq<char>;

/// Relies on textwrap::dedent: the result depends on the text alone.
#[verifier::external_body]
fn dedent(text: &str) -> (r: String)
    ensures
        r@ == dedented(text@),
{
    textwrap::dedent(text)
}

/// Relies on textwrap::fill with the default options for `width`: the result
/// depends on the text and the width alone.
#[verifier::external_body]
fn fill(text: &str, width: usize) -> (r: String)
    ensures
        r@ == filled(text@, width as nat),
{
    textwrap::fill(text, width)
}

/// The first-use notice, dedented and wrapped.
pub fn welcome_text() -> (r: String)
    ensures
        r@ == filled(dedented(WELCOME_TEXT@), WRAP_WIDTH as nat),
{
    let text = dedent(WELCOME_TEXT);
    fill(text.as_str(), WRAP_WIDTH)
}

/// The two paragraphs shown before registering, wrapped.
pub fn registration_intro() -> (r: Vec<String>)
    ensures
        lines_view(r@) == seq![
            filled(REGISTER_OFFER_TEXT@, WRAP_WIDTH as nat),
            filled(REGISTER_STEPS_TEXT@, WRAP_WIDTH as nat),
        ],
{
    let r = vec![fill(REGISTER_OFFER_TEXT, WRAP_WIDTH), fill(REGISTER_STEPS_TEXT, WRAP_WIDTH)];
    assert(lines_view(r@) =~= seq![
        filled(REGISTER_OFFER_TEXT@, WRAP_WIDTH as nat),
        filled(REGISTER_STEPS_TEXT@, WRAP_WIDTH as nat),
    ]);
    r
}

} // verus!
