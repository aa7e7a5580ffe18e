//! The short textual token carried by a button: a version digit, an action
//! letter, then one letter for each field of the action.

use vstd::prelude::*;
use vstd::string::StrSliceExecFns;
use vstd::string::StringExecFns;

verus! {

#[derive(Copy, Clone, Debug, PartialEq, Eq, Structural)]
pub struct QueryCommand {
    pub _v: Version,
    pub action: QueryAction,
}

/// The version of the token format.
#[derive(Copy, Clone, Debug, PartialEq, Eq, Structural)]
pub enum Version {
    V0,
}

#[derive(Copy, Clone, Debug, PartialEq, Eq, Structural)]
pub enum QueryAction {
    Download(ActionDownload),
}

#[derive(Copy, Clone, Debug, PartialEq, Eq, Structural)]
pub struct ActionDownload {
    pub target: DownloadTarget,
    pub format: DownloadFormat,
}

#[derive(Copy, Clone, Debug, PartialEq, Eq, Structural)]
pub enum DownloadTarget {
    Single,
    All,
}

#[derive(Copy, Clone, Debug, PartialEq, Eq, Structural)]
pub enum DownloadFormat {
    Png,
    Webp,
}

/// The letter that stands for a download target.
pub open spec fn target_tag(t: DownloadTarget) -> char {
    match t {
        DownloadTarget::Single => 's',
        DownloadTarget::All => 'a',
    }
}

/// The download target that a letter stands for, if any.
pub open spec fn target_of_tag(c: char) -> Option<DownloadTarget> {
    if c == 's' {
        Some(DownloadTarget::Single)
    } else if c == 'a' {
        Some(DownloadTarget::All)
    } else {
        None
    }
}

/// The letter that stands for an output format.
pub open spec fn format_tag(f: DownloadFormat) -> char {
    match f {
        DownloadFormat::Png => 'p',
        DownloadFormat::Webp => 'w',
    }
}

/// The output format that a letter stands for, if any.
pub open spec fn format_of_tag(c: char) -> Option<DownloadFormat> {
    if c == 'p' {
        Some(DownloadFormat::Png)
    } else if c == 'w' {
        Some(DownloadFormat::Webp)
    } else {
        None
    }
}

impl QueryCommand {
    /// The token of a command: version `0`, `d` for download, the target's
    /// letter and the format's letter.
    pub open spec fn spec_encode(self) -> Seq<char> {
        match self.action {
            QueryAction::Download(a) => seq!['0', 'd', target_tag(a.target), format_tag(a.format)],
        }
    }

    /// The command a token denotes: every position must hold a known tag and
    /// nothing may follow the last field.
    pub open spec fn spec_decode(s: Seq<char>) -> Option<QueryCommand> {
        if s.len() == 4 && s[0] == '0' && s[1] == 'd' && target_of_tag(s[2]) is Some
            && format_of_tag(s[3]) is Some {
            Some(
                QueryCommand {
                    _v: Version::V0,
                    action: QueryAction::Download(
                        ActionDownload {
                            target: target_of_tag(s[2])->Some_0,
                            format: format_of_tag(s[3])->Some_0,
                        },
                    ),
                },
            )
        } else {
            None
        }
    }

    pub open spec fn spec_download(target: DownloadTarget, format: DownloadFormat) -> QueryCommand {
        QueryCommand {
            _v: Version::V0,
            action: QueryAction::Download(ActionDownload { target, format }),
        }
    }

    pub fn download(target: DownloadTarget, format: DownloadFormat) -> (r: Self)
        ensures
            r == Self::spec_download(target, format),
            r.action == QueryAction::Download(ActionDownload { target, format }),
    {
        QueryCommand {
            _v: Version::V0,
            action: QueryAction::Download(ActionDownload { target, format }),
        }
    }

    pub fn encode(&self) -> (r: String)
        ensures
            r@ == self.spec_encode(),
    {
        let mut out = String::new();
        self._v.encode(&mut out);
        self.action.encode(self._v, &mut out);
        out
    }

    pub fn decode(data: &str) -> (r: Option<Self>)
        ensures
            r == Self::spec_decode(data@),
    {
        let mut d = Decoder::new(data);
        let v = match Version::decode(&mut d) {
            Some(v) => v,
            None => return None,
        };
        let action = match QueryAction::decode(v, &mut d) {
            Some(a) => a,
            None => return None,
        };
        if d.pos < d.len {
            return None;
        }
        Some(QueryCommand { _v: v, action })
    }
}

/// Pushes a one-letter tag onto a token.
fn push_tag(out: &mut String, c: char)
    requires
        c == '0' || c == 'd' || c == 's' || c == 'a' || c == 'p' || c == 'w',
    ensures
        final(out)@ == old(out)@.push(c),
{
    proof {
        reveal_strlit("0");
        reveal_strlit("d");
        reveal_strlit("s");
        reveal_strlit("a");
        reveal_strlit("p");
        reveal_strlit("w");
    }
    if c == '0' {
        out.append("0");
    } else if c == 'd' {
        out.append("d");
    } else if c == 's' {
        out.append("s");
    } else if c == 'a' {
        out.append("a");
    } else if c == 'p' {
        out.append("p");
    } else {
        out.append("w");
    }
    assert(final(out)@ =~= old(out)@.push(c));
}

impl Version {
    fn encode(&self, out: &mut String)
        ensures
            final(out)@ == old(out)@.push('0'),
    {
        match self {
            Version::V0 => push_tag(out, '0'),
        }
    }

    fn decode(d: &mut Decoder<'_>) -> (r: Option<Self>)
        requires
            old(d).wf(),
        ensures
            final(d).wf(),
            final(d).s == old(d).s,
            old(d).pos < old(d).len && old(d).s@[old(d).pos as int] == '0' ==> r == Some(
                Version::V0,
            ) && final(d).pos == old(d).pos + 1,
            !(old(d).pos < old(d).len && old(d).s@[old(d).pos as int] == '0') ==> r is None,
    {
        match d.eat() {
            Some('0') => Some(Version::V0),
            _ => None,
        }
    }
}

impl QueryAction {
    fn encode(&self, v: Version, out: &mut String)
        ensures
            final(out)@ == old(out)@ + match self {
                QueryAction::Download(a) => seq!['d', target_tag(a.target), format_tag(a.format)],
            },
    {
        match v {
            Version::V0 => match self {
                QueryAction::Download(action_download) => {
                    push_tag(out, 'd');
                    action_download.encode(v, out);
                },
            },
        }
        proof {
            let a = match self {
                QueryAction::Download(a) => a,
            };
            assert(final(out)@ =~= old(out)@ + seq!['d', target_tag(a.target), format_tag(a.format)]);
        }
    }

    fn decode(v: Version, d: &mut Decoder<'_>) -> (r: Option<Self>)
        requires
            old(d).wf(),
        ensures
            final(d).wf(),
            final(d).s == old(d).s,
            ({
                let s = old(d).s@;
                let p = old(d).pos as int;
                if p + 3 <= s.len() && s[p] == 'd' && target_of_tag(s[p + 1]) is Some
                    && format_of_tag(s[p + 2]) is Some {
                    &&& r == Some(
                        QueryAction::Download(
                            ActionDownload {
                                target: target_of_tag(s[p + 1])->Some_0,
                                format: format_of_tag(s[p + 2])->Some_0,
                            },
                        ),
                    )
                    &&& final(d).pos == p + 3
                } else {
                    r is None
                }
            }),
    {
        match v {
            Version::V0 => match d.eat() {
                Some('d') => {
                    let action_download = match ActionDownload::decode(v, d) {
                        Some(a) => a,
                        None => return None,
                    };
                    Some(QueryAction::Download(action_download))
                },
                _ => None,
            },
        }
    }
}

impl ActionDownload {
    fn encode(&self, v: Version, out: &mut String)
        ensures
            final(out)@ == old(out)@ + seq![target_tag(self.target), format_tag(self.format)],
    {
        match v {
            Version::V0 => {
                self.target.encode(v, out);
                self.format.encode(v, out);
            },
        }
        assert(final(out)@ =~= old(out)@ + seq![target_tag(self.target), format_tag(self.format)]);
    }

    fn decode(v: Version, d: &mut Decoder<'_>) -> (r: Option<Self>)
        requires
            old(d).wf(),
        ensures
            final(d).wf(),
            final(d).s == old(d).s,
            ({
                let s = old(d).s@;
                let p = old(d).pos as int;
                if p + 2 <= s.len() && target_of_tag(s[p]) is Some && format_of_tag(s[p + 1]) is Some {
                    &&& r == Some(
                        ActionDownload {
                            target: target_of_tag(s[p])->Some_0,
                            format: format_of_tag(s[p + 1])->Some_0,
                        },
                    )
                    &&& final(d).pos == p + 2
                } else {
                    r is None
                }
            }),
    {
        let target = match DownloadTarget::decode(v, d) {
            Some(t) => t,
            None => return None,
        };
        let format = match DownloadFormat::decode(v, d) {
            Some(f) => f,
            None => return None,
        };
        Some(ActionDownload { target, format })
    }
}

impl DownloadTarget {
    fn encode(&self, v: Version, out: &mut String)
        ensures
            final(out)@ == old(out)@.push(target_tag(*self)),
    {
        match v {
            Version::V0 => match self {
                DownloadTarget::Single => push_tag(out, 's'),
                DownloadTarget::All => push_tag(out, 'a'),
            },
        }
    }

    fn decode(v: Version, d: &mut Decoder<'_>) -> (r: Option<Self>)
        requires
            old(d).wf(),
        ensures
            final(d).wf(),
            final(d).s == old(d).s,
            old(d).pos < old(d).len ==> r == target_of_tag(old(d).s@[old(d).pos as int]),
            old(d).pos >= old(d).len ==> r is None,
            r is Some ==> final(d).pos == old(d).pos + 1,
    {
        match v {
            Version::V0 => match d.eat() {
                Some('s') => Some(DownloadTarget::Single),
                Some('a') => Some(DownloadTarget::All),
                _ => None,
            },
        }
    }
}

impl DownloadFormat {
    fn encode(&self, v: Version, out: &mut String)
        ensures
            final(out)@ == old(out)@.push(format_tag(*self)),
    {
        match v {
            Version::V0 => match self {
                DownloadFormat::Png => push_tag(out, 'p'),
                DownloadFormat::Webp => push_tag(out, 'w'),
            },
        }
    }

    fn decode(v: Version, d: &mut Decoder<'_>) -> (r: Option<Self>)
        requires
            old(d).wf(),
        ensures
            final(d).wf(),
            final(d).s == old(d).s,
            old(d).pos < old(d).len ==> r == format_of_tag(old(d).s@[old(d).pos as int]),
            old(d).pos >= old(d).len ==> r is None,
            r is Some ==> final(d).pos == old(d).pos + 1,
    {
        match v {
            Version::V0 => match d.eat() {
                Some('p') => Some(DownloadFormat::Png),
                Some('w') => Some(DownloadFormat::Webp),
                _ => None,
            },
        }
    }

    pub open spec fn spec_ext(self) -> Seq<char> {
        match self {
            DownloadFormat::Png => seq!['p', 'n', 'g'],
            DownloadFormat::Webp => seq!['w', 'e', 'b', 'p'],
        }
    }

    /// The file extension of the format, without the dot.
    pub fn ext(&self) -> (r: &'static str)
        ensures
            r@ == self.spec_ext(),
    {
        proof {
            reveal_strlit("png");
            reveal_strlit("webp");
        }
        match self {
            DownloadFormat::Png => "png",
            DownloadFormat::Webp => "webp",
        }
    }

    /// Whether fetched stickers, which are WebP, must be re-encoded.
    pub fn needs_conversion(&self) -> (r: bool)
        ensures
            r == (*self == DownloadFormat::Png),
    {
        matches!(self, DownloadFormat::Png)
    }

    pub open spec fn spec_fine_alone(self) -> bool {
        self != DownloadFormat::Webp
    }

    /// Whether a single file of this format may be sent as it is, outside an
    /// archive.
    pub fn is_fine_for_sending_alone(&self) -> (r: bool)
        ensures
            r == self.spec_fine_alone(),
    {
        !matches!(self, DownloadFormat::Webp)
    }
}

/// Reads a token one character at a time.
struct Decoder<'a> {
    s: &'a str,
    len: usize,
    pos: usize,
}

impl<'a> Decoder<'a> {
    spec fn wf(&self) -> bool {
        &&& self.len as nat == self.s@.len()
        &&& self.pos <= self.len
    }

    fn new(s: &'a str) -> (r: Self)
        ensures
            r.wf(),
            r.s == s,
            r.pos == 0,
    {
        Decoder { s, len: s.unicode_len(), pos: 0 }
    }

    fn eat(&mut self) -> (r: Option<char>)
        requires
            old(self).wf(),
        ensures
            final(self).wf(),
            final(self).s == old(self).s,
            old(self).pos < old(self).len ==> r == Some(old(self).s@[old(self).pos as int])
                && final(self).pos == old(self).pos + 1,
            old(self).pos >= old(self).len ==> r is None && final(self).pos == old(self).pos,
    {
        if self.pos >= self.len {
            return None;
        }
        let c = self.s.get_char(self.pos);
        self.pos = self.pos + 1;
        Some(c)
    }
}

/// Decoding an encoded command gives the command back.
pub proof fn lemma_decode_encode(x: QueryCommand)
    ensures
        QueryCommand::spec_decode(x.spec_encode()) == Some(x),
{
    let QueryAction::Download(a) = x.action;
    assert(target_of_tag(target_tag(a.target)) == Some(a.target));
    assert(format_of_tag(format_tag(a.format)) == Some(a.format));
    let Version::V0 = x._v;
}

/// A token decodes to a command exactly when it is that command's encoding;
/// any other string, with an unknown tag anywhere or cut short, is refused.
pub proof fn lemma_decode_only_encodings(s: Seq<char>)
    ensures
        QueryCommand::spec_decode(s) is Some <==> exists|x: QueryCommand| x.spec_encode() == s,
        QueryCommand::spec_decode(s) matches Some(x) ==> x.spec_encode() == s,
{
    if let Some(x) = QueryCommand::spec_decode(s) {
        assert(x.spec_encode() =~= s);
    }
    if exists|x: QueryCommand| x.spec_encode() == s {
        let x = choose|x: QueryCommand| x.spec_encode() == s;
        lemma_decode_encode(x);
    }
}

} // verus!
