//! The closed set of release codenames and what is known of each.

use vstd::prelude::*;
use vstd::string::*;
use vstd::utf8::*;

verus! {

/// Why a string could not be read as a codename.
#[derive(Clone, Copy, Debug, PartialEq, Eq, Structural, Hash)]
pub enum CodenameParseError {
    /// The string is none of the five codenames.
    NotFound,
}

/// The codename associated with an Ubuntu version.
#[derive(Clone, Copy, Debug, PartialEq, Eq, Structural, Hash)]
pub enum Codename {
    Bionic,
    Cosmic,
    Disco,
    Eoan,
    Focal,
}

/// The codename that is written `text`, if there is one.
///
/// The match is exact: lower case, nothing before or after.
pub open spec fn codename_named(text: Seq<char>) -> Option<Codename> {
    if text == "bionic"@ {
        Some(Codename::Bionic)
    } else if text == "cosmic"@ {
        Some(Codename::Cosmic)
    } else if text == "disco"@ {
        Some(Codename::Disco)
    } else if text == "eoan"@ {
        Some(Codename::Eoan)
    } else if text == "focal"@ {
        Some(Codename::Focal)
    } else {
        None
    }
}

/// Whether two strings hold the same characters.
fn same_text(left: &str, right: &str) -> (same: bool)
    ensures
        same == (left@ == right@),
{
    let a = left.as_bytes();
    let b = right.as_bytes();
    proof {
        encode_utf8_decode_utf8(left@);
        encode_utf8_decode_utf8(right@);
    }
    if a.len() != b.len() {
        return false;
    }
    let mut i: usize = 0;
    while i < a.len()
        invariant
            a@ == left.spec_bytes(),
            b@ == right.spec_bytes(),
            a@.len() == b@.len(),
            i <= a@.len(),
            a@.subrange(0, i as int) == b@.subrange(0, i as int),
        decreases a@.len() - i,
    {
        if a[i] != b[i] {
            return false;
        }
        proof {
            assert(a@.subrange(0, i + 1) == a@.subrange(0, i as int).push(a@[i as int]));
            assert(b@.subrange(0, i + 1) == b@.subrange(0, i as int).push(b@[i as int]));
        }
        i += 1;
    }
    proof {
        assert(a@ == a@.subrange(0, i as int));
        assert(b@ == b@.subrange(0, i as int));
    }
    true
}

impl Codename {
    /// The codename as it is written: lower case.
    pub open spec fn literal(self) -> &'static str {
        match self {
            Codename::Bionic => "bionic",
            Codename::Cosmic => "cosmic",
            Codename::Disco => "disco",
            Codename::Eoan => "eoan",
            Codename::Focal => "focal",
        }
    }

    /// The characters of the codename as it is written.
    pub open spec fn name(self) -> Seq<char> {
        self.literal()@
    }

    /// The day of release as `(year, month, day)`. Focal's day is 0: the
    /// exact day is not fixed.
    pub open spec fn date(self) -> (u32, u32, u32) {
        match self {
            Codename::Bionic => (2018u32, 4u32, 26u32),
            Codename::Cosmic => (2018u32, 10u32, 18u32),
            Codename::Disco => (2019u32, 4u32, 18u32),
            Codename::Eoan => (2019u32, 10u32, 17u32),
            Codename::Focal => (2020u32, 4u32, 0u32),
        }
    }

    /// Seconds from the Unix epoch to the release.
    pub open spec fn timestamp(self) -> u64 {
        match self {
            Codename::Bionic => 1_524_700_800u64,
            Codename::Cosmic => 1_539_820_800u64,
            Codename::Disco => 1_555_545_600u64,
            Codename::Eoan => 1_571_270_400u64,
            Codename::Focal => 1_585_699_200u64,
        }
    }

    /// What reading `text` gives: the codename of that name, or `NotFound`
    /// where there is none.
    pub open spec fn parsed(text: Seq<char>) -> Result<Codename, CodenameParseError> {
        match codename_named(text) {
            Some(codename) => Ok(codename),
            None => Err(CodenameParseError::NotFound),
        }
    }

    /// Returns the release date in a `(year, month, date)` format
    pub fn release_date(self) -> (date: (u32, u32, u32))
        ensures
            date == self.date(),
    {
        match self {
            Codename::Bionic => (2018, 4, 26),
            Codename::Cosmic => (2018, 10, 18),
            Codename::Disco => (2019, 4, 18),
            Codename::Eoan => (2019, 10, 17),
            // Approximate time for future release
            Codename::Focal => (2020, 4, 0),
        }
    }

    /// When this was released, as the time in seconds since the Unix Epoch
    pub fn release_timestamp(self) -> (seconds: u64)
        ensures
            seconds == self.timestamp(),
    {
        match self {
            Codename::Bionic => 1_524_700_800,
            Codename::Cosmic => 1_539_820_800,
            Codename::Disco => 1_555_545_600,
            Codename::Eoan => 1_571_270_400,
            // Approximate time for future release
            Codename::Focal => 1_585_699_200,
        }
    }

    /// The codename as a string slice.
    pub fn as_str(self) -> (text: &'static str)
        ensures
            text == self.literal(),
            text@ == self.name(),
    {
        match self {
            Codename::Bionic => "bionic",
            Codename::Cosmic => "cosmic",
            Codename::Disco => "disco",
            Codename::Eoan => "eoan",
            Codename::Focal => "focal",
        }
    }

    /// The codename as an owned string.
    pub fn to_string(self) -> (text: String)
        ensures
            text@ == self.name(),
    {
        self.as_str().to_owned()
    }

    /// Reads a codename. Succeeds on exactly the five names, and fails with
    /// `NotFound` on every other string.
    pub fn parse(input: &str) -> (parsed: Result<Codename, CodenameParseError>)
        ensures
            parsed == Codename::parsed(input@),
    {
        if same_text(input, "bionic") {
            Ok(Codename::Bionic)
        } else if same_text(input, "cosmic") {
            Ok(Codename::Cosmic)
        } else if same_text(input, "disco") {
            Ok(Codename::Disco)
        } else if same_text(input, "eoan") {
            Ok(Codename::Eoan)
        } else if same_text(input, "focal") {
            Ok(Codename::Focal)
        } else {
            Err(CodenameParseError::NotFound)
        }
    }
}

/// Writing a codename and reading it back gives the same codename.
pub proof fn lemma_name_round_trip(codename: Codename)
    ensures
        codename_named(codename.name()) == Some(codename),
{
    reveal_strlit("bionic");
    reveal_strlit("cosmic");
    reveal_strlit("disco");
    reveal_strlit("eoan");
    reveal_strlit("focal");
    // The five names start with five different letters.
    assert("bionic"@[0] == 'b');
    assert("cosmic"@[0] == 'c');
    assert("disco"@[0] == 'd');
    assert("eoan"@[0] == 'e');
    assert("focal"@[0] == 'f');
}

/// A string reads as a codename only if it is that codename's name.
pub proof fn lemma_named_is_name(text: Seq<char>, codename: Codename)
    ensures
        codename_named(text) == Some(codename) <==> text == codename.name(),
{
    lemma_name_round_trip(codename);
}

impl From<Codename> for &'static str {
    fn from(codename: Codename) -> (text: &'static str) {
        codename.as_str()
    }
}

impl vstd::std_specs::convert::FromSpecImpl<Codename> for &'static str {
    open spec fn obeys_from_spec() -> bool {
        true
    }

    open spec fn from_spec(codename: Codename) -> &'static str {
        codename.literal()
    }
}

impl core::str::FromStr for Codename {
    type Err = CodenameParseError;

    fn from_str(input: &str) -> (parsed: Result<Codename, CodenameParseError>)
        ensures
            parsed == Codename::parsed(input@),
    {
        Codename::parse(input)
    }
}

} // verus!
