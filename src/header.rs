//! The header name type, its canonical text, and parsing from free text.
use vstd::prelude::*;
use vstd::utf8::is_ascii_chars;
use crate::text::{equals_lowered, lower_ascii, lowercase, to_lowercase};

verus! {

/// The name of a WARC record header.
///
/// Every variant but `Unknown` stands for one fixed header name: the fields
/// of the WARC standard, then the extension fields of the `LCC-` namespace.
/// `Unknown` holds any other name, in lowercase when it comes from parsing.
#[derive(Clone, Debug, Hash, Eq, PartialEq)]
pub enum WarcHeader {
    /// `Content-Length`
    ContentLength,
    /// `Content-Type`
    ContentType,
    /// `WARC-Block-Digest`
    BlockDigest,
    /// `WARC-Concurrent-To`
    ConcurrentTo,
    /// `WARC-Date`
    Date,
    /// `WARC-Filename`
    Filename,
    /// `WARC-Identified-Payload-Type`
    IdentifiedPayloadType,
    /// `WARC-IP-Address`
    IPAddress,
    /// `WARC-Payload-Digest`
    PayloadDigest,
    /// `WARC-Profile`
    Profile,
    /// `WARC-Record-ID`
    RecordID,
    /// `WARC-Refers-To`
    RefersTo,
    /// `WARC-Segment-Number`
    SegmentNumber,
    /// `WARC-Segment-Origin-ID`
    SegmentOriginID,
    /// `WARC-Segment-Total-Length`
    SegmentTotalLength,
    /// `WARC-Target-URI`
    TargetURI,
    /// `WARC-Truncated`
    Truncated,
    /// `WARC-Type`
    WarcType,
    /// `WARC-Warcinfo-ID`
    WarcInfoID,
    /// `LCC-Archive-Format`
    ArchiveFormat,
    /// `LCC-Title`
    Title,
    /// `LCC-Canonical-URI`
    CanonicalURI,
    /// `LCC-Predicted-Language`
    PredictedLanguage,
    /// `LCC-Acquisition-Date`
    AcquisitionDate,
    /// Any other header name.
    Unknown(String),
}

impl WarcHeader {
    /// Whether this is one of the fixed names rather than `Unknown`.
    pub open spec fn is_known(self) -> bool {
        !(self is Unknown)
    }

    /// The text this header name renders to: its canonical spelling, or the
    /// text held by `Unknown`.
    pub open spec fn canonical_name(self) -> Seq<char> {
        match self {
            WarcHeader::ContentLength => "Content-Length"@,
            WarcHeader::ContentType => "Content-Type"@,
            WarcHeader::BlockDigest => "WARC-Block-Digest"@,
            WarcHeader::ConcurrentTo => "WARC-Concurrent-To"@,
            WarcHeader::Date => "WARC-Date"@,
            WarcHeader::Filename => "WARC-Filename"@,
            WarcHeader::IdentifiedPayloadType => "WARC-Identified-Payload-Type"@,
            WarcHeader::IPAddress => "WARC-IP-Address"@,
            WarcHeader::PayloadDigest => "WARC-Payload-Digest"@,
            WarcHeader::Profile => "WARC-Profile"@,
            WarcHeader::RecordID => "WARC-Record-ID"@,
            WarcHeader::RefersTo => "WARC-Refers-To"@,
            WarcHeader::SegmentNumber => "WARC-Segment-Number"@,
            WarcHeader::SegmentOriginID => "WARC-Segment-Origin-ID"@,
            WarcHeader::SegmentTotalLength => "WARC-Segment-Total-Length"@,
            WarcHeader::TargetURI => "WARC-Target-URI"@,
            WarcHeader::Truncated => "WARC-Truncated"@,
            WarcHeader::WarcType => "WARC-Type"@,
            WarcHeader::WarcInfoID => "WARC-Warcinfo-ID"@,
            WarcHeader::ArchiveFormat => "LCC-Archive-Format"@,
            WarcHeader::Title => "LCC-Title"@,
            WarcHeader::CanonicalURI => "LCC-Canonical-URI"@,
            WarcHeader::PredictedLanguage => "LCC-Predicted-Language"@,
            WarcHeader::AcquisitionDate => "LCC-Acquisition-Date"@,
            WarcHeader::Unknown(s) => s@,
        }
    }

    /// Whether `lower` is the lowercase form of this fixed name.
    pub open spec fn is_named_by(self, lower: Seq<char>) -> bool {
        self.is_known() && lower_ascii(self.canonical_name()) == lower
    }

    /// Whether this is what the lowercased text `lower` parses to: the fixed
    /// name whose lowercase form is `lower`, or, where there is none,
    /// `Unknown` holding `lower`.
    pub open spec fn parsed_from(self, lower: Seq<char>) -> bool {
        ||| self.is_named_by(lower)
        ||| {
            &&& self is Unknown
            &&& self->0@ == lower
            &&& forall|h: WarcHeader| !#[trigger] h.is_named_by(lower)
        }
    }

    /// The canonical text of this header name (for `Unknown`, the text it holds).
    pub fn as_str(&self) -> (r: &str)
        ensures
            r@ == self.canonical_name(),
    {
        match self {
            WarcHeader::ContentLength => "Content-Length",
            WarcHeader::ContentType => "Content-Type",
            WarcHeader::BlockDigest => "WARC-Block-Digest",
            WarcHeader::ConcurrentTo => "WARC-Concurrent-To",
            WarcHeader::Date => "WARC-Date",
            WarcHeader::Filename => "WARC-Filename",
            WarcHeader::IdentifiedPayloadType => "WARC-Identified-Payload-Type",
            WarcHeader::IPAddress => "WARC-IP-Address",
            WarcHeader::PayloadDigest => "WARC-Payload-Digest",
            WarcHeader::Profile => "WARC-Profile",
            WarcHeader::RecordID => "WARC-Record-ID",
            WarcHeader::RefersTo => "WARC-Refers-To",
            WarcHeader::SegmentNumber => "WARC-Segment-Number",
            WarcHeader::SegmentOriginID => "WARC-Segment-Origin-ID",
            WarcHeader::SegmentTotalLength => "WARC-Segment-Total-Length",
            WarcHeader::TargetURI => "WARC-Target-URI",
            WarcHeader::Truncated => "WARC-Truncated",
            WarcHeader::WarcType => "WARC-Type",
            WarcHeader::WarcInfoID => "WARC-Warcinfo-ID",
            WarcHeader::ArchiveFormat => "LCC-Archive-Format",
            WarcHeader::Title => "LCC-Title",
            WarcHeader::CanonicalURI => "LCC-Canonical-URI",
            WarcHeader::PredictedLanguage => "LCC-Predicted-Language",
            WarcHeader::AcquisitionDate => "LCC-Acquisition-Date",
            WarcHeader::Unknown(s) => s.as_str(),
        }
    }

    /// Whether `lower` is the lowercase form of this fixed name.
    fn is_named_by_text(&self, lower: &str) -> (r: bool)
        requires
            self.is_known(),
        ensures
            r == self.is_named_by(lower@),
    {
        proof {
            lemma_known_names_ascii(*self);
        }
        equals_lowered(lower, self.as_str())
    }

    /// The header name for text that has already been lowercased: the fixed
    /// name whose lowercase form it is, or else `Unknown` holding the text.
    pub fn from_lowered(lower: String) -> (r: WarcHeader)
        ensures
            r.parsed_from(lower@),
    {
        let s = lower.as_str();
        let found = if WarcHeader::ContentLength.is_named_by_text(s) {
            WarcHeader::ContentLength
        } else if WarcHeader::ContentType.is_named_by_text(s) {
            WarcHeader::ContentType
        } else if WarcHeader::BlockDigest.is_named_by_text(s) {
            WarcHeader::BlockDigest
        } else if WarcHeader::ConcurrentTo.is_named_by_text(s) {
            WarcHeader::ConcurrentTo
        } else if WarcHeader::Date.is_named_by_text(s) {
            WarcHeader::Date
        } else if WarcHeader::Filename.is_named_by_text(s) {
            WarcHeader::Filename
        } else if WarcHeader::IdentifiedPayloadType.is_named_by_text(s) {
            WarcHeader::IdentifiedPayloadType
        } else if WarcHeader::IPAddress.is_named_by_text(s) {
            WarcHeader::IPAddress
        } else if WarcHeader::PayloadDigest.is_named_by_text(s) {
            WarcHeader::PayloadDigest
        } else if WarcHeader::Profile.is_named_by_text(s) {
            WarcHeader::Profile
        } else if WarcHeader::RecordID.is_named_by_text(s) {
            WarcHeader::RecordID
        } else if WarcHeader::RefersTo.is_named_by_text(s) {
            WarcHeader::RefersTo
        } else if WarcHeader::SegmentNumber.is_named_by_text(s) {
            WarcHeader::SegmentNumber
        } else if WarcHeader::SegmentOriginID.is_named_by_text(s) {
            WarcHeader::SegmentOriginID
        } else if WarcHeader::SegmentTotalLength.is_named_by_text(s) {
            WarcHeader::SegmentTotalLength
        } else if WarcHeader::TargetURI.is_named_by_text(s) {
            WarcHeader::TargetURI
        } else if WarcHeader::Truncated.is_named_by_text(s) {
            WarcHeader::Truncated
        } else if WarcHeader::WarcType.is_named_by_text(s) {
            WarcHeader::WarcType
        } else if WarcHeader::WarcInfoID.is_named_by_text(s) {
            WarcHeader::WarcInfoID
        } else if WarcHeader::ArchiveFormat.is_named_by_text(s) {
            WarcHeader::ArchiveFormat
        } else if WarcHeader::Title.is_named_by_text(s) {
            WarcHeader::Title
        } else if WarcHeader::CanonicalURI.is_named_by_text(s) {
            WarcHeader::CanonicalURI
        } else if WarcHeader::PredictedLanguage.is_named_by_text(s) {
            WarcHeader::PredictedLanguage
        } else if WarcHeader::AcquisitionDate.is_named_by_text(s) {
            WarcHeader::AcquisitionDate
        } else {
            return WarcHeader::Unknown(lower);
        };
        found
    }

    /// Parses a header name from text in any case: the text is lowercased,
    /// then matched against the lowercase forms of the fixed names.
    pub fn parse(text: &str) -> (r: WarcHeader)
        ensures
            r.parsed_from(lowercase(text@)),
    {
        WarcHeader::from_lowered(to_lowercase(text))
    }

    /// The canonical text of this header name, as an owned string.
    pub fn to_string(&self) -> (r: String)
        ensures
            r@ == self.canonical_name(),
    {
        self.as_str().to_owned()
    }
}

impl From<WarcHeader> for String {
    /// The canonical text of the header name, as `to_string` gives it.
    fn from(header: WarcHeader) -> (r: String)
        ensures
            r@ == header.canonical_name(),
    {
        header.to_string()
    }
}

/// The result of this conversion is stated in the `ensures` of its `from`
/// (over views, which no single spec value of the target type can carry for
/// an `Unknown` text), so the trait's own spec is not used.
impl vstd::std_specs::convert::FromSpecImpl<WarcHeader> for String {
    open spec fn obeys_from_spec() -> bool {
        false
    }

    open spec fn from_spec(v: WarcHeader) -> String {
        arbitrary()
    }
}

impl From<&str> for WarcHeader {
    /// Parses the text as `parse` does.
    fn from(text: &str) -> (r: WarcHeader)
        ensures
            r.parsed_from(lowercase(text@)),
    {
        WarcHeader::parse(text)
    }
}

/// The result of this conversion is stated in the `ensures` of its `from`
/// (over views, which no single spec value of the target type can carry for
/// an `Unknown` text), so the trait's own spec is not used.
impl vstd::std_specs::convert::FromSpecImpl<&str> for WarcHeader {
    open spec fn obeys_from_spec() -> bool {
        false
    }

    open spec fn from_spec(v: &str) -> WarcHeader {
        arbitrary()
    }
}

impl From<String> for WarcHeader {
    /// Parses the text as `parse` does.
    fn from(text: String) -> (r: WarcHeader)
        ensures
            r.parsed_from(lowercase(text@)),
    {
        WarcHeader::parse(text.as_str())
    }
}

/// The result of this conversion is stated in the `ensures` of its `from`
/// (over views, which no single spec value of the target type can carry for
/// an `Unknown` text), so the trait's own spec is not used.
impl vstd::std_specs::convert::FromSpecImpl<String> for WarcHeader {
    open spec fn obeys_from_spec() -> bool {
        false
    }

    open spec fn from_spec(v: String) -> WarcHeader {
        arbitrary()
    }
}

/// Every fixed name is ASCII text.
pub proof fn lemma_known_names_ascii(h: WarcHeader)
    requires
        h.is_known(),
    ensures
        is_ascii_chars(h.canonical_name()),
{
    reveal_strlit("Content-Length");
    reveal_strlit("Content-Type");
    reveal_strlit("WARC-Block-Digest");
    reveal_strlit("WARC-Concurrent-To");
    reveal_strlit("WARC-Date");
    reveal_strlit("WARC-Filename");
    reveal_strlit("WARC-Identified-Payload-Type");
    reveal_strlit("WARC-IP-Address");
    reveal_strlit("WARC-Payload-Digest");
    reveal_strlit("WARC-Profile");
    reveal_strlit("WARC-Record-ID");
    reveal_strlit("WARC-Refers-To");
    reveal_strlit("WARC-Segment-Number");
    reveal_strlit("WARC-Segment-Origin-ID");
    reveal_strlit("WARC-Segment-Total-Length");
    reveal_strlit("WARC-Target-URI");
    reveal_strlit("WARC-Truncated");
    reveal_strlit("WARC-Type");
    reveal_strlit("WARC-Warcinfo-ID");
    reveal_strlit("LCC-Archive-Format");
    reveal_strlit("LCC-Title");
    reveal_strlit("LCC-Canonical-URI");
    reveal_strlit("LCC-Predicted-Language");
    reveal_strlit("LCC-Acquisition-Date");
}

/// A few positions that already tell the lowercase fixed names apart.
spec fn fingerprint(s: Seq<char>) -> (int, char, char, char) {
    (s.len() as int, s[0], s[5], s[7])
}

/// No two fixed names have the same lowercase form.
pub proof fn lemma_lowered_names_distinct(a: WarcHeader, b: WarcHeader)
    requires
        a.is_known(),
        b.is_known(),
        lower_ascii(a.canonical_name()) == lower_ascii(b.canonical_name()),
    ensures
        a == b,
{
    reveal_strlit("Content-Length");
    reveal_strlit("Content-Type");
    reveal_strlit("WARC-Block-Digest");
    reveal_strlit("WARC-Concurrent-To");
    reveal_strlit("WARC-Date");
    reveal_strlit("WARC-Filename");
    reveal_strlit("WARC-Identified-Payload-Type");
    reveal_strlit("WARC-IP-Address");
    reveal_strlit("WARC-Payload-Digest");
    reveal_strlit("WARC-Profile");
    reveal_strlit("WARC-Record-ID");
    reveal_strlit("WARC-Refers-To");
    reveal_strlit("WARC-Segment-Number");
    reveal_strlit("WARC-Segment-Origin-ID");
    reveal_strlit("WARC-Segment-Total-Length");
    reveal_strlit("WARC-Target-URI");
    reveal_strlit("WARC-Truncated");
    reveal_strlit("WARC-Type");
    reveal_strlit("WARC-Warcinfo-ID");
    reveal_strlit("LCC-Archive-Format");
    reveal_strlit("LCC-Title");
    reveal_strlit("LCC-Canonical-URI");
    reveal_strlit("LCC-Predicted-Language");
    reveal_strlit("LCC-Acquisition-Date");
    assert(fingerprint(lower_ascii(a.canonical_name())) == fingerprint(
        lower_ascii(b.canonical_name()),
    ));
}

} // verus!
