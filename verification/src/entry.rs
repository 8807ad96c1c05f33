//! Options and checks for the program entry point.
//!
//! The entry point of a user program is an `async fn` that takes the
//! peripherals as its only argument. This module holds what is decided about
//! it: which options the attribute carries, whether a signature is fit to be
//! an entry point, and the statement that shows or hides the startup banner.

use vstd::prelude::*;

verus! {

/// Reported for an entry point that is not `async`.
pub const NO_SYNC_ERR: &'static str = "The vexide entrypoint must be marked `async`.";

/// Reported for an entry point that is `unsafe`.
pub const NO_UNSAFE_ERR: &'static str = "The vexide entrypoint must be not marked `unsafe`.";

/// Reported for an entry point that does not take exactly one argument.
pub const WRONG_ARGS_ERR: &'static str =
    "The vexide entrypoint must take a single parameter of type `vexide_devices::peripherals::Peripherals`";

/// The `banner = <bool>` option of the entry-point attribute.
#[derive(Clone, Copy, Debug, PartialEq, Eq, Structural)]
pub struct Banner {
    /// The value written behind `banner =`.
    pub arg: bool,
}

impl Banner {
    /// The option with the given value.
    pub fn new(arg: bool) -> (b: Banner)
        ensures
            b.as_bool() == arg,
    {
        Banner { arg }
    }

    /// Whether the banner is asked for.
    #[verifier::when_used_as_spec(spec_as_bool)]
    pub fn as_bool(&self) -> (b: bool)
        ensures
            b == self.spec_as_bool(),
    {
        self.arg
    }

    /// Whether the banner is asked for.
    pub open spec fn spec_as_bool(&self) -> bool {
        self.arg
    }
}

/// One option of the entry-point attribute.
#[derive(Clone, Copy, Debug, PartialEq, Eq, Structural)]
pub enum Attribute {
    Banner(Banner),
}

/// The options written in the entry-point attribute, in source order.
pub struct Attrs {
    attr_list: Vec<Attribute>,
}

impl View for Attrs {
    type V = Seq<Attribute>;

    closed spec fn view(&self) -> Seq<Attribute> {
        self.attr_list@
    }
}

impl Attrs {
    /// The options `attr_list`, in the order in which they were written.
    pub fn new(attr_list: Vec<Attribute>) -> (attrs: Attrs)
        ensures
            attrs@ == attr_list@,
    {
        Attrs { attr_list }
    }

    /// Number of options written.
    pub fn len(&self) -> (n: usize)
        ensures
            n == self@.len(),
    {
        self.attr_list.len()
    }
}

/// One token of the text inside the entry-point attribute.
#[derive(Clone, Copy, Debug, PartialEq, Eq, Structural)]
pub enum Token {
    /// The word `banner`.
    BannerKeyword,
    /// The sign `=`.
    Equals,
    /// The sign `,`.
    Comma,
    /// One of the words `true` and `false`.
    Bool(bool),
    /// Any other token.
    Other,
}

/// A token that the grammar of the entry-point attribute does not allow.
#[derive(Clone, Copy, Debug, PartialEq, Eq, Structural)]
pub struct ParseError {
    /// Index of the token that was not expected; the number of tokens if
    /// the text ended too early.
    pub position: usize,
}

/// The option that the three tokens from index `at` on spell, or the index
/// of the first token that does not fit `banner = <bool>`.
pub open spec fn option_at(tokens: Seq<Token>, at: int) -> Result<Banner, int> {
    if at >= tokens.len() || tokens[at] != Token::BannerKeyword {
        Err(at)
    } else if at + 1 >= tokens.len() || tokens[at + 1] != Token::Equals {
        Err(at + 1)
    } else if at + 2 >= tokens.len() {
        Err(at + 2)
    } else {
        match tokens[at + 2] {
            Token::Bool(arg) => Ok(Banner { arg }),
            _ => Err(at + 2),
        }
    }
}

/// The options that the tokens from index `at` on spell: options of the
/// form `banner = <bool>`, with a comma between any two and, if one likes,
/// behind the last; or the index of the first token that does not fit.
pub open spec fn options_from(tokens: Seq<Token>, at: int) -> Result<Seq<Attribute>, int>
    decreases tokens.len() - at,
{
    if at >= tokens.len() {
        Ok(Seq::empty())
    } else {
        match option_at(tokens, at) {
            Err(position) => Err(position),
            Ok(banner) => if at + 3 >= tokens.len() {
                Ok(seq![Attribute::Banner(banner)])
            } else if tokens[at + 3] != Token::Comma {
                Err(at + 3)
            } else {
                match options_from(tokens, at + 4) {
                    Err(position) => Err(position),
                    Ok(rest) => Ok(seq![Attribute::Banner(banner)] + rest),
                }
            },
        }
    }
}

/// Reads one option from the three tokens at index `at`.
fn parse_option(tokens: &Vec<Token>, at: usize) -> (r: Result<Banner, ParseError>)
    requires
        at <= tokens@.len(),
    ensures
        match r {
            Ok(banner) => option_at(tokens@, at as int) == Ok::<Banner, int>(banner),
            Err(e) => option_at(tokens@, at as int) == Err::<Banner, int>(e.position as int),
        },
        r is Ok ==> at + 3 <= tokens@.len(),
{
    let n = tokens.len();
    if at >= n {
        return Err(ParseError { position: at });
    }
    match tokens[at] {
        Token::BannerKeyword => {},
        _ => {
            return Err(ParseError { position: at });
        },
    }
    if n - at < 2 {
        return Err(ParseError { position: at + 1 });
    }
    match tokens[at + 1] {
        Token::Equals => {},
        _ => {
            return Err(ParseError { position: at + 1 });
        },
    }
    if n - at < 3 {
        return Err(ParseError { position: at + 2 });
    }
    match tokens[at + 2] {
        Token::Bool(arg) => Ok(Banner { arg }),
        _ => Err(ParseError { position: at + 2 }),
    }
}

impl Banner {
    /// Reads the option from its tokens, which must be `banner = <bool>` and
    /// nothing more.
    pub fn parse(tokens: &Vec<Token>) -> (r: Result<Banner, ParseError>)
        ensures
            match r {
                Ok(banner) => tokens@ == seq![
                    Token::BannerKeyword,
                    Token::Equals,
                    Token::Bool(banner.as_bool()),
                ],
                Err(e) => match option_at(tokens@, 0) {
                    Err(position) => e.position == position,
                    Ok(_) => e.position == 3 && tokens@.len() > 3,
                },
            },
    {
        match parse_option(tokens, 0) {
            Err(e) => Err(e),
            Ok(banner) => if tokens.len() > 3 {
                Err(ParseError { position: 3 })
            } else {
                proof {
                    assert(tokens@ =~= seq![
                        Token::BannerKeyword,
                        Token::Equals,
                        Token::Bool(banner.as_bool()),
                    ]);
                }
                Ok(banner)
            },
        }
    }

    /// The tokens that spell the option.
    pub fn to_tokens(&self) -> (tokens: Vec<Token>)
        ensures
            tokens@ == seq![Token::BannerKeyword, Token::Equals, Token::Bool(self.as_bool())],
    {
        let mut tokens: Vec<Token> = Vec::new();
        tokens.push(Token::BannerKeyword);
        tokens.push(Token::Equals);
        tokens.push(Token::Bool(self.arg));
        proof {
            assert(tokens@ =~= seq![
                Token::BannerKeyword,
                Token::Equals,
                Token::Bool(self.as_bool()),
            ]);
        }
        tokens
    }
}

/// An option that was written out reads back as itself.
pub proof fn law_written_option_reads_back(banner: Banner)
    ensures
        option_at(seq![Token::BannerKeyword, Token::Equals, Token::Bool(banner.arg)], 0) == Ok::<
            Banner,
            int,
        >(banner),
        options_from(seq![Token::BannerKeyword, Token::Equals, Token::Bool(banner.arg)], 0) == Ok::<
            Seq<Attribute>,
            int,
        >(seq![Attribute::Banner(banner)]),
{
}

impl Attribute {
    /// Reads one option from its tokens. The first token decides which
    /// option it is; `banner` is the only one there is.
    pub fn parse(tokens: &Vec<Token>) -> (r: Result<Attribute, ParseError>)
        ensures
            match r {
                Ok(Attribute::Banner(banner)) => tokens@ == seq![
                    Token::BannerKeyword,
                    Token::Equals,
                    Token::Bool(banner.as_bool()),
                ],
                Err(e) => match option_at(tokens@, 0) {
                    Err(position) => e.position == position,
                    Ok(_) => e.position == 3 && tokens@.len() > 3,
                },
            },
    {
        match Banner::parse(tokens) {
            Ok(banner) => Ok(Attribute::Banner(banner)),
            Err(e) => Err(e),
        }
    }
}

impl Attrs {
    /// Reads the options of the entry-point attribute from its tokens: any
    /// number of options `banner = <bool>`, separated by commas, with or
    /// without a comma behind the last.
    pub fn parse(tokens: &Vec<Token>) -> (r: Result<Attrs, ParseError>)
        ensures
            match r {
                Ok(attrs) => options_from(tokens@, 0) == Ok::<Seq<Attribute>, int>(attrs@),
                Err(e) => options_from(tokens@, 0) == Err::<Seq<Attribute>, int>(
                    e.position as int,
                ),
            },
    {
        let n = tokens.len();
        let mut attr_list: Vec<Attribute> = Vec::new();
        let mut at: usize = 0;
        while at < n
            invariant
                n == tokens@.len(),
                at <= n,
                options_from(tokens@, 0) == match options_from(tokens@, at as int) {
                    Ok(rest) => Ok::<Seq<Attribute>, int>(attr_list@ + rest),
                    Err(position) => Err(position),
                },
            decreases n - at,
        {
            let banner = match parse_option(tokens, at) {
                Err(e) => {
                    return Err(e);
                },
                Ok(banner) => banner,
            };
            let ghost earlier = attr_list@;
            attr_list.push(Attribute::Banner(banner));
            if n - at == 3 {
                proof {
                    assert(earlier + seq![Attribute::Banner(banner)] =~= attr_list@);
                    assert(options_from(tokens@, n as int) == Ok::<Seq<Attribute>, int>(
                        Seq::empty(),
                    ));
                    assert(attr_list@ + Seq::<Attribute>::empty() =~= attr_list@);
                }
                at = n;
            } else {
                match tokens[at + 3] {
                    Token::Comma => {},
                    _ => {
                        return Err(ParseError { position: at + 3 });
                    },
                }
                proof {
                    match options_from(tokens@, at + 4) {
                        Ok(rest) => {
                            assert(earlier + (seq![Attribute::Banner(banner)] + rest)
                                =~= attr_list@ + rest);
                        },
                        Err(_) => {},
                    }
                }
                at = at + 4;
            }
        }
        proof {
            assert(attr_list@ + Seq::<Attribute>::empty() =~= attr_list@);
        }
        Ok(Attrs { attr_list })
    }
}

/// The banner setting that the options `attrs` give: the last `banner`
/// option decides, and without one the banner is shown.
pub open spec fn banner_setting(attrs: Seq<Attribute>) -> bool {
    if attrs.len() == 0 {
        true
    } else {
        match attrs.last() {
            Attribute::Banner(banner) => banner.as_bool(),
        }
    }
}

/// What the entry-point attribute asks for.
#[derive(Clone, Copy, Debug, PartialEq, Eq, Structural)]
pub struct MacroOpts {
    pub banner: bool,
}

impl Default for MacroOpts {
    fn default() -> (opts: Self)
        ensures
            opts.banner,
    {
        Self { banner: true }
    }
}

impl vstd::std_specs::convert::FromSpecImpl<Attrs> for MacroOpts {
    open spec fn obeys_from_spec() -> bool {
        true
    }

    open spec fn from_spec(value: Attrs) -> Self {
        MacroOpts { banner: banner_setting(value@) }
    }
}

impl From<Attrs> for MacroOpts {
    fn from(value: Attrs) -> (opts: Self) {
        let mut opts = MacroOpts { banner: true };
        let n = value.attr_list.len();
        let mut i: usize = 0;
        while i < n
            invariant
                n == value@.len(),
                i <= n,
                opts.banner == banner_setting(value@.take(i as int)),
            decreases n - i,
        {
            match value.attr_list[i] {
                Attribute::Banner(banner) => {
                    opts.banner = banner.as_bool();
                },
            }
            proof {
                assert(value@.take(i + 1).last() == value@[i as int]);
            }
            i += 1;
        }
        proof {
            assert(value@.take(n as int) =~= value@);
        }
        opts
    }
}

/// What the entry-point check reads of a function signature.
#[derive(Clone, Copy, Debug, PartialEq, Eq, Structural)]
pub struct EntrySignature {
    /// The function is declared `async`.
    pub is_async: bool,
    /// The function is declared `unsafe`.
    pub is_unsafe: bool,
    /// Number of arguments the function takes.
    pub inputs: usize,
}

/// A rule that an entry-point signature breaks.
#[derive(Clone, Copy, Debug, PartialEq, Eq, Structural)]
pub enum SignatureFault {
    /// The function is not `async`.
    NotAsync,
    /// The function is `unsafe`.
    Unsafe,
    /// The function does not take exactly one argument.
    WrongArguments,
}

impl SignatureFault {
    /// The message shown to the user for this fault.
    pub open spec fn spec_message(self) -> Seq<char> {
        match self {
            SignatureFault::NotAsync => NO_SYNC_ERR@,
            SignatureFault::Unsafe => NO_UNSAFE_ERR@,
            SignatureFault::WrongArguments => WRONG_ARGS_ERR@,
        }
    }

    /// The message shown to the user for this fault.
    pub fn message(&self) -> (text: &'static str)
        ensures
            text@ == self.spec_message(),
    {
        match self {
            SignatureFault::NotAsync => NO_SYNC_ERR,
            SignatureFault::Unsafe => NO_UNSAFE_ERR,
            SignatureFault::WrongArguments => WRONG_ARGS_ERR,
        }
    }
}

/// The faults of `sig`, in the order in which they are reported: a missing
/// `async` first, then `unsafe`, then a wrong number of arguments.
pub open spec fn signature_faults(sig: EntrySignature) -> Seq<SignatureFault> {
    let not_async = if sig.is_async {
        Seq::<SignatureFault>::empty()
    } else {
        seq![SignatureFault::NotAsync]
    };
    let unsafety = if sig.is_unsafe {
        seq![SignatureFault::Unsafe]
    } else {
        Seq::<SignatureFault>::empty()
    };
    let arguments = if sig.inputs == 1 {
        Seq::<SignatureFault>::empty()
    } else {
        seq![SignatureFault::WrongArguments]
    };
    not_async + unsafety + arguments
}

/// Checks that `sig` can be an entry point: `async`, not `unsafe`, and with
/// exactly one argument. Every broken rule is reported, not only the first.
pub fn verify_function_sig(sig: &EntrySignature) -> (r: Result<(), Vec<SignatureFault>>)
    ensures
        r.is_ok() <==> sig.is_async && !sig.is_unsafe && sig.inputs == 1,
        r matches Err(faults) ==> faults@ == signature_faults(*sig) && faults@.len() > 0,
{
    let mut faults: Vec<SignatureFault> = Vec::new();
    if !sig.is_async {
        faults.push(SignatureFault::NotAsync);
    }
    if sig.is_unsafe {
        faults.push(SignatureFault::Unsafe);
    }
    if sig.inputs != 1 {
        faults.push(SignatureFault::WrongArguments);
    }
    proof {
        assert(faults@ =~= signature_faults(*sig));
    }
    if faults.len() == 0 {
        Ok(())
    } else {
        Err(faults)
    }
}

/// The statement that a generated `main` runs before the user's entry point
/// when the banner is shown.
pub const BANNER_ON: &'static str = "if true { ::vexide::banner::print(); }";

/// The statement that a generated `main` holds in place of the banner call
/// when the banner is hidden.
pub const BANNER_OFF: &'static str = "if false { ::vexide::banner::print(); }";

/// The source text of the banner statement for the options `opts`.
pub open spec fn entrypoint_text(opts: MacroOpts) -> Seq<char> {
    if opts.banner {
        BANNER_ON@
    } else {
        BANNER_OFF@
    }
}

/// The banner statement of the generated `main` for the options `opts`: it
/// names the chosen setting as a literal.
pub fn make_entrypoint(opts: MacroOpts) -> (text: String)
    ensures
        text@ == entrypoint_text(opts),
{
    if opts.banner {
        BANNER_ON.to_owned()
    } else {
        BANNER_OFF.to_owned()
    }
}

} // verus!
