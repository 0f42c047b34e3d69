use vstd::prelude::*;
use vstd::string::StrSliceExecFns;
use vstd::string::StringExecFns;

verus! {

/// The playable identities: a closed vocabulary.
#[derive(Clone, Copy, PartialEq, Eq, Structural, Debug, Hash)]
pub enum Legend {
    Bangalore,
    Bloodhound,
    Caustic,
    Gibraltar,
    Lifeline,
    Mirage,
    Octane,
    Pathfinder,
    Wraith,
}

/// Squad composition categories. `Unknown` is reachable only as a stored
/// value: parsing never produces it.
#[derive(Clone, Copy, PartialEq, Eq, Structural, Debug, Hash)]
pub enum SquadType {
    Solo,
    Duo,
    Trio,
    Unknown,
}

/// The characters stripped from both ends of parse input: the Unicode
/// white-space characters, the same class `str::trim` strips.
pub open spec fn is_space(c: char) -> bool {
    let u = c as u32;
    ||| u == 0x20
    ||| 0x9 <= u && u <= 0xd
    ||| u == 0x85
    ||| u == 0xa0
    ||| u == 0x1680
    ||| 0x2000 <= u && u <= 0x200a
    ||| u == 0x2028
    ||| u == 0x2029
    ||| u == 0x202f
    ||| u == 0x205f
    ||| u == 0x3000
}

/// The code point of `c` with an ASCII capital letter shifted to its
/// lower-case counterpart.
pub open spec fn lower_code(c: char) -> int {
    if 'A' as u32 <= c as u32 && c as u32 <= 'Z' as u32 {
        c as u32 + 32
    } else {
        c as u32 as int
    }
}

/// `s` without its leading whitespace.
pub open spec fn trim_front(s: Seq<char>) -> Seq<char>
    decreases s.len(),
{
    if s.len() > 0 && is_space(s[0]) {
        trim_front(s.drop_first())
    } else {
        s
    }
}

/// `s` without its trailing whitespace.
pub open spec fn trim_back(s: Seq<char>) -> Seq<char>
    decreases s.len(),
{
    if s.len() > 0 && is_space(s.last()) {
        trim_back(s.drop_last())
    } else {
        s
    }
}

/// `s` without leading and trailing whitespace.
pub open spec fn trimmed(s: Seq<char>) -> Seq<char> {
    trim_back(trim_front(s))
}

/// The two texts agree letter for letter, ignoring ASCII case.
pub open spec fn eq_ignore_case(a: Seq<char>, b: Seq<char>) -> bool {
    a.len() == b.len() && forall|i: int| 0 <= i < a.len() ==> lower_code(a[i]) == lower_code(b[i])
}

/// The legend named by `s`, parsed case-insensitively after trimming
/// whitespace; `None` when `s` names no legend.
pub open spec fn legend_of_chars(s: Seq<char>) -> Option<Legend> {
    let t = trimmed(s);
    if eq_ignore_case(t, "bangalore"@) {
        Some(Legend::Bangalore)
    } else if eq_ignore_case(t, "bloodhound"@) {
        Some(Legend::Bloodhound)
    } else if eq_ignore_case(t, "caustic"@) {
        Some(Legend::Caustic)
    } else if eq_ignore_case(t, "gibraltar"@) {
        Some(Legend::Gibraltar)
    } else if eq_ignore_case(t, "lifeline"@) {
        Some(Legend::Lifeline)
    } else if eq_ignore_case(t, "mirage"@) {
        Some(Legend::Mirage)
    } else if eq_ignore_case(t, "octane"@) {
        Some(Legend::Octane)
    } else if eq_ignore_case(t, "pathfinder"@) {
        Some(Legend::Pathfinder)
    } else if eq_ignore_case(t, "wraith"@) {
        Some(Legend::Wraith)
    } else {
        None
    }
}

/// The squad composition named by `s`, parsed case-insensitively after
/// trimming whitespace. Only `solo`, `duo` and `trio` parse: `Unknown` is
/// never produced.
pub open spec fn squad_type_of_chars(s: Seq<char>) -> Option<SquadType> {
    let t = trimmed(s);
    if eq_ignore_case(t, "solo"@) {
        Some(SquadType::Solo)
    } else if eq_ignore_case(t, "duo"@) {
        Some(SquadType::Duo)
    } else if eq_ignore_case(t, "trio"@) {
        Some(SquadType::Trio)
    } else {
        None
    }
}

/// The squad composition a stored row names: the live vocabulary plus the
/// legacy marker `unknown`, which fresh parsing never accepts.
pub open spec fn stored_squad_type_of_chars(s: Seq<char>) -> Option<SquadType> {
    if squad_type_of_chars(s) is Some {
        squad_type_of_chars(s)
    } else if eq_ignore_case(trimmed(s), "unknown"@) {
        Some(SquadType::Unknown)
    } else {
        None
    }
}

fn is_space_char(c: char) -> (r: bool)
    ensures
        r == is_space(c),
{
    let u: u32 = c as u32;
    u == 0x20 || (0x9 <= u && u <= 0xd) || u == 0x85 || u == 0xa0 || u == 0x1680 || (0x2000 <= u
        && u <= 0x200a) || u == 0x2028 || u == 0x2029 || u == 0x202f || u == 0x205f || u == 0x3000
}

fn lower_code_of(c: char) -> (r: u32)
    ensures
        r == lower_code(c),
{
    let u: u32 = c as u32;
    if 65 <= u && u <= 90 {
        u + 32
    } else {
        u
    }
}

/// `s` with leading and trailing whitespace removed.
pub fn trim_spaces(s: &str) -> (r: &str)
    ensures
        r@ == trimmed(s@),
{
    let len = s.unicode_len();
    let mut start: usize = 0;
    proof {
        assert(s@.skip(0) =~= s@);
    }
    while start < len && is_space_char(s.get_char(start))
        invariant
            len == s@.len(),
            start <= len,
            trim_front(s@) == trim_front(s@.skip(start as int)),
        decreases len - start,
    {
        proof {
            assert(s@.skip(start as int)[0] == s@[start as int]);
            assert(s@.skip(start as int).drop_first() =~= s@.skip(start as int + 1));
        }
        start = start + 1;
    }
    proof {
        assert(trim_front(s@.skip(start as int)) == s@.skip(start as int));
        assert(s@.subrange(start as int, len as int) =~= s@.skip(start as int));
    }
    let mut end: usize = len;
    while end > start && is_space_char(s.get_char(end - 1))
        invariant
            len == s@.len(),
            start <= end <= len,
            trim_front(s@) == s@.skip(start as int),
            trim_back(s@.skip(start as int)) == trim_back(
                s@.subrange(start as int, end as int),
            ),
        decreases end,
    {
        proof {
            let sub = s@.subrange(start as int, end as int);
            assert(sub.last() == s@[end - 1]);
            assert(sub.drop_last() =~= s@.subrange(start as int, end as int - 1));
        }
        end = end - 1;
    }
    proof {
        assert(trim_back(s@.subrange(start as int, end as int)) == s@.subrange(
            start as int,
            end as int,
        ));
    }
    s.substring_char(start, end)
}

/// The two texts agree letter for letter, ignoring ASCII case.
pub fn eq_ignore_ascii_case(a: &str, b: &str) -> (r: bool)
    ensures
        r == eq_ignore_case(a@, b@),
{
    let alen = a.unicode_len();
    let blen = b.unicode_len();
    if alen != blen {
        return false;
    }
    let mut i: usize = 0;
    while i < alen
        invariant
            alen == a@.len(),
            blen == b@.len(),
            alen == blen,
            i <= alen,
            forall|j: int| 0 <= j < i ==> lower_code(a@[j]) == lower_code(b@[j]),
        decreases alen - i,
    {
        let ca = a.get_char(i);
        let cb = b.get_char(i);
        if lower_code_of(ca) != lower_code_of(cb) {
            return false;
        }
        i = i + 1;
    }
    true
}

/// The error for input that names no legend; it carries the rejected text.
#[derive(Debug, Clone, PartialEq, Eq)]
pub struct LegendParseError {
    pub legend_name: String,
}

impl LegendParseError {
    pub fn new(legend_name: String) -> (e: Self)
        ensures
            e.legend_name == legend_name,
    {
        Self { legend_name }
    }

    /// The diagnostic line for this error.
    pub fn message(&self) -> (r: String)
        ensures
            r@ == "Unknown legend "@ + self.legend_name@,
    {
        let mut m = "Unknown legend ".to_owned();
        m.append(self.legend_name.as_str());
        m
    }
}

/// The error for input that names no squad composition; it carries the
/// rejected text.
#[derive(Debug, Clone, PartialEq, Eq)]
pub struct SquadTypeParseError {
    pub squad_type: String,
}

impl SquadTypeParseError {
    pub fn new(squad_type: String) -> (e: Self)
        ensures
            e.squad_type == squad_type,
    {
        Self { squad_type }
    }

    /// The diagnostic line for this error.
    pub fn message(&self) -> (r: String)
        ensures
            r@ == "Unknown squad type \""@ + self.squad_type@
                + "\". Supported types are `solo`, `duo` and `trio`."@,
    {
        let mut m = "Unknown squad type \"".to_owned();
        m.append(self.squad_type.as_str());
        m.append("\". Supported types are `solo`, `duo` and `trio`.");
        m
    }
}

impl Legend {
    /// Parse a legend name, case-insensitively and ignoring surrounding
    /// whitespace. Succeeds exactly on input naming a legend; the error
    /// carries the rejected raw input.
    pub fn parse(s: &str) -> (r: Result<Legend, LegendParseError>)
        ensures
            match r {
                Ok(l) => legend_of_chars(s@) == Some(l),
                Err(e) => legend_of_chars(s@) is None && e.legend_name@ == s@,
            },
    {
        let t = trim_spaces(s);
        if eq_ignore_ascii_case(t, "bangalore") {
            Ok(Legend::Bangalore)
        } else if eq_ignore_ascii_case(t, "bloodhound") {
            Ok(Legend::Bloodhound)
        } else if eq_ignore_ascii_case(t, "caustic") {
            Ok(Legend::Caustic)
        } else if eq_ignore_ascii_case(t, "gibraltar") {
            Ok(Legend::Gibraltar)
        } else if eq_ignore_ascii_case(t, "lifeline") {
            Ok(Legend::Lifeline)
        } else if eq_ignore_ascii_case(t, "mirage") {
            Ok(Legend::Mirage)
        } else if eq_ignore_ascii_case(t, "octane") {
            Ok(Legend::Octane)
        } else if eq_ignore_ascii_case(t, "pathfinder") {
            Ok(Legend::Pathfinder)
        } else if eq_ignore_ascii_case(t, "wraith") {
            Ok(Legend::Wraith)
        } else {
            Err(LegendParseError::new(s.to_owned()))
        }
    }

    /// The canonical lower-case name of this legend.
    pub open spec fn spec_name(self) -> Seq<char> {
        match self {
            Legend::Bangalore => "bangalore"@,
            Legend::Bloodhound => "bloodhound"@,
            Legend::Caustic => "caustic"@,
            Legend::Gibraltar => "gibraltar"@,
            Legend::Lifeline => "lifeline"@,
            Legend::Mirage => "mirage"@,
            Legend::Octane => "octane"@,
            Legend::Pathfinder => "pathfinder"@,
            Legend::Wraith => "wraith"@,
        }
    }

    /// The canonical lower-case name of this legend.
    pub fn name(&self) -> (r: String)
        ensures
            r@ == self.spec_name(),
    {
        match self {
            Legend::Bangalore => "bangalore".to_owned(),
            Legend::Bloodhound => "bloodhound".to_owned(),
            Legend::Caustic => "caustic".to_owned(),
            Legend::Gibraltar => "gibraltar".to_owned(),
            Legend::Lifeline => "lifeline".to_owned(),
            Legend::Mirage => "mirage".to_owned(),
            Legend::Octane => "octane".to_owned(),
            Legend::Pathfinder => "pathfinder".to_owned(),
            Legend::Wraith => "wraith".to_owned(),
        }
    }
}

impl SquadType {
    /// Parse a squad composition, case-insensitively and ignoring
    /// surrounding whitespace. Succeeds exactly on `solo`, `duo` and `trio`;
    /// it never produces `Unknown`, and the error carries the rejected raw
    /// input.
    pub fn parse(s: &str) -> (r: Result<SquadType, SquadTypeParseError>)
        ensures
            match r {
                Ok(t) => squad_type_of_chars(s@) == Some(t) && t != SquadType::Unknown,
                Err(e) => squad_type_of_chars(s@) is None && e.squad_type@ == s@,
            },
    {
        let t = trim_spaces(s);
        if eq_ignore_ascii_case(t, "solo") {
            Ok(SquadType::Solo)
        } else if eq_ignore_ascii_case(t, "duo") {
            Ok(SquadType::Duo)
        } else if eq_ignore_ascii_case(t, "trio") {
            Ok(SquadType::Trio)
        } else {
            Err(SquadTypeParseError::new(s.to_owned()))
        }
    }

    /// Parse a squad composition read back from the record store. It
    /// accepts the live vocabulary exactly as `parse` does and, in
    /// addition, the marker `unknown` that earlier stores wrote for rows
    /// whose composition could not be determined. Fresh user input goes
    /// through `parse` instead, so a parse failure stays an explicit error
    /// and is never silently mapped to `Unknown`.
    pub fn parse_stored(s: &str) -> (r: Result<SquadType, SquadTypeParseError>)
        ensures
            match r {
                Ok(t) => stored_squad_type_of_chars(s@) == Some(t),
                Err(e) => stored_squad_type_of_chars(s@) is None && e.squad_type@ == s@,
            },
    {
        match SquadType::parse(s) {
            Ok(t) => Ok(t),
            Err(e) => {
                let t = trim_spaces(s);
                if eq_ignore_ascii_case(t, "unknown") {
                    Ok(SquadType::Unknown)
                } else {
                    Err(e)
                }
            },
        }
    }

    /// The canonical lower-case name of this squad composition.
    pub open spec fn spec_name(self) -> Seq<char> {
        match self {
            SquadType::Solo => "solo"@,
            SquadType::Duo => "duo"@,
            SquadType::Trio => "trio"@,
            SquadType::Unknown => "unknown"@,
        }
    }

    /// The canonical lower-case name of this squad composition.
    pub fn name(&self) -> (r: String)
        ensures
            r@ == self.spec_name(),
    {
        match self {
            SquadType::Solo => "solo".to_owned(),
            SquadType::Duo => "duo".to_owned(),
            SquadType::Trio => "trio".to_owned(),
            SquadType::Unknown => "unknown".to_owned(),
        }
    }
}

} // verus!
