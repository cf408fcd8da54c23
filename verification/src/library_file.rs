use vstd::prelude::*;

verus! {

/// What `serde_json::from_str` reads from `text` as a `serde_json::Value`:
/// `None` where `text` is not JSON, `Some(None)` where it is JSON but not an
/// object, and otherwise the members of the object, each with its value
/// written back as compact JSON text, in the order of the crate's map.
pub uninterp spec fn json_object(text: Seq<char>) -> Option<Option<Seq<(Seq<char>, Seq<char>)>>>;

/// What `toml::from_str` reads from `text` as a `serde_json::Value`, in the
/// same shape as `json_object`.
pub uninterp spec fn toml_object(text: Seq<char>) -> Option<Option<Seq<(Seq<char>, Seq<char>)>>>;

/// The members of an object, by their views.
pub open spec fn members_view(members: Seq<(String, String)>) -> Seq<(Seq<char>, Seq<char>)> {
    members.map_values(|m: (String, String)| (m.0@, m.1@))
}

/// What reading a text as an object gave, by views.
pub open spec fn read_view(r: Option<Option<Vec<(String, String)>>>) -> Option<Option<Seq<(Seq<char>, Seq<char>)>>> {
    match r {
        None => None,
        Some(None) => Some(None),
        Some(Some(members)) => Some(Some(members_view(members@))),
    }
}

/// Reads `text` with `serde_json::from_str` into a `serde_json::Value` and
/// hands out the members of the object it holds, each value written back
/// with the value's `Display` (compact JSON). The contract claims only that
/// the result is the one named by `json_object` for this text: the crate
/// reads the same text the same way every time.
#[verifier::external_body]
fn json_members(text: &str) -> (r: Option<Option<Vec<(String, String)>>>)
    ensures
        read_view(r) == json_object(text@),
{
    match serde_json::from_str::<serde_json::Value>(text) {
        Ok(serde_json::Value::Object(map)) => Some(Some(map.into_iter().map(|(k, v)| (k, v.to_string())).collect())),
        Ok(_) => Some(None),
        Err(_) => None,
    }
}

/// Reads `text` with `toml::from_str` into a `serde_json::Value` and hands
/// out its members as `json_members` does. The contract claims only that
/// the result is the one named by `toml_object` for this text.
#[verifier::external_body]
fn toml_members(text: &str) -> (r: Option<Option<Vec<(String, String)>>>)
    ensures
        read_view(r) == toml_object(text@),
{
    match toml::from_str::<serde_json::Value>(text) {
        Ok(serde_json::Value::Object(map)) => Some(Some(map.into_iter().map(|(k, v)| (k, v.to_string())).collect())),
        Ok(_) => Some(None),
        Err(_) => None,
    }
}

/// The kinds of library file, told apart by the file's extension.
#[derive(Debug, Clone, Copy, PartialEq, Eq, Structural)]
pub enum FileFormat {
    Json,
    Toml,
    /// Any other extension: such a file holds nothing for the library.
    Other,
}

/// The format of a file with extension `ext`.
pub open spec fn format_of(ext: Seq<char>) -> FileFormat {
    if ext == "json"@ {
        FileFormat::Json
    } else if ext == "toml"@ {
        FileFormat::Toml
    } else {
        FileFormat::Other
    }
}

/// A file ending in `json` is a JSON file, one ending in `toml` a TOML file,
/// and any other is neither.
pub proof fn lemma_formats(ext: Seq<char>)
    ensures
        format_of("json"@) == FileFormat::Json,
        format_of("toml"@) == FileFormat::Toml,
        ext != "json"@ && ext != "toml"@ ==> format_of(ext) == FileFormat::Other,
{
    reveal_strlit("json");
    reveal_strlit("toml");
    assert("json"@ != "toml"@) by {
        assert("json"@[0] != "toml"@[0]);
    }
}

impl FileFormat {
    /// The format of a file with extension `ext`: `json`, `toml`, or other.
    pub fn from_extension(ext: &str) -> (r: FileFormat)
        ensures
            r == format_of(ext@),
    {
        let ext = String::from_str(ext);
        if ext == String::from_str("json") {
            FileFormat::Json
        } else if ext == String::from_str("toml") {
            FileFormat::Toml
        } else {
            FileFormat::Other
        }
    }
}

/// Why a library file could not be read.
#[derive(Debug, Clone, Copy, PartialEq, Eq, Structural)]
pub enum SectionsError {
    /// The file is not written in its format.
    Unparsable,
    /// Its `cards` or `chips` member is there but is not an object.
    NotAnObject,
}

/// The cards and the chips a library file describes: each by name, with
/// its description as JSON text, in the order of the file's object.
#[derive(Debug)]
pub struct LibrarySections {
    pub cards: Vec<(String, String)>,
    pub chips: Vec<(String, String)>,
}

/// The text of the member `key` among `members`; where the name occurs more
/// than once, the last one, as a JSON object keeps it.
pub open spec fn member_under(members: Seq<(Seq<char>, Seq<char>)>, key: Seq<char>) -> Option<Seq<char>>
    decreases members.len(),
{
    if members.len() == 0 {
        None
    } else if members.last().0 == key {
        Some(members.last().1)
    } else {
        member_under(members.drop_last(), key)
    }
}

/// The members of the section `key` of a file's object: none where it has
/// no such member, and an error where that member is not an object.
pub open spec fn section_of(members: Seq<(Seq<char>, Seq<char>)>, key: Seq<char>) -> Result<
    Seq<(Seq<char>, Seq<char>)>,
    SectionsError,
> {
    match member_under(members, key) {
        None => Ok(Seq::empty()),
        Some(text) => match json_object(text) {
            Some(Some(section)) => Ok(section),
            _ => Err(SectionsError::NotAnObject),
        },
    }
}

/// What a library file of format `format` holding `text` describes: its
/// cards and its chips. A file of another format describes nothing; a
/// file that does not parse is an error; a file whose value is not an
/// object, or that lacks a section, describes nothing there.
pub open spec fn sections_spec(text: Seq<char>, format: FileFormat) -> Result<
    (Seq<(Seq<char>, Seq<char>)>, Seq<(Seq<char>, Seq<char>)>),
    SectionsError,
> {
    let read = match format {
        FileFormat::Json => json_object(text),
        FileFormat::Toml => toml_object(text),
        FileFormat::Other => Some(None),
    };
    match read {
        None => Err(SectionsError::Unparsable),
        Some(None) => Ok((Seq::empty(), Seq::empty())),
        Some(Some(members)) => match section_of(members, "cards"@) {
            Err(e) => Err(e),
            Ok(cards) => match section_of(members, "chips"@) {
                Err(e) => Err(e),
                Ok(chips) => Ok((cards, chips)),
            },
        },
    }
}

/// The member under `key` is the last member of that name: none where no
/// member has that name, and otherwise the text of the one that no later
/// member of that name follows.
pub proof fn lemma_member_under_last(members: Seq<(Seq<char>, Seq<char>)>, key: Seq<char>)
    ensures
        (forall|i: int| 0 <= i < members.len() ==> (#[trigger] members[i]).0 != key) ==> member_under(members, key) is None,
        forall|i: int| 0 <= i < members.len() && (#[trigger] members[i]).0 == key
            && (forall|j: int| i < j < members.len() ==> members[j].0 != key)
            ==> member_under(members, key) == Some(members[i].1),
    decreases members.len(),
{
    if members.len() > 0 {
        let rest = members.drop_last();
        lemma_member_under_last(rest, key);
        assert forall|i: int| 0 <= i < rest.len() implies #[trigger] rest[i] == members[i] by {}
        if (forall|i: int| 0 <= i < members.len() ==> (#[trigger] members[i]).0 != key) {
            assert(members[members.len() - 1].0 != key);
        }
        assert forall|i: int| 0 <= i < members.len() && (#[trigger] members[i]).0 == key
            && (forall|j: int| i < j < members.len() ==> members[j].0 != key)
            implies member_under(members, key) == Some(members[i].1) by {
            if i < members.len() - 1 {
                assert(members[members.len() - 1].0 != key);
                assert(rest[i] == members[i]);
                assert forall|j: int| i < j < rest.len() implies rest[j].0 != key by {
                    assert(rest[j] == members[j]);
                }
            }
        }
    }
}

/// A section of a file's object is read from that member alone: where the
/// object has no member of that name the section is empty; where the
/// member's text is a JSON object the section is that object's members;
/// otherwise the section is an error.
pub proof fn lemma_section_from_its_member(members: Seq<(Seq<char>, Seq<char>)>, key: Seq<char>)
    ensures
        member_under(members, key) is None ==> section_of(members, key) == Ok::<_, SectionsError>(Seq::<(Seq<char>, Seq<char>)>::empty()),
        member_under(members, key) matches Some(text) ==> (json_object(text) matches Some(Some(section))
            ==> section_of(members, key) == Ok::<_, SectionsError>(section)),
        member_under(members, key) matches Some(text) ==> (!(json_object(text) matches Some(Some(_)))
            ==> section_of(members, key) == Err::<Seq<(Seq<char>, Seq<char>)>, _>(SectionsError::NotAnObject)),
{
}

/// The cards and the chips of a file are read each from their own member:
/// a file of another format holds nothing; a file that does not parse is
/// an error; a file whose value is not an object holds nothing; otherwise
/// the cards are the `cards` section and the chips the `chips` section,
/// whether or not the other one is there, and an error of either section
/// (the cards' first) is the file's error.
pub proof fn lemma_sections_read_independently(text: Seq<char>, format: FileFormat)
    ensures
        format == FileFormat::Other ==> sections_spec(text, format)
            == Ok::<_, SectionsError>((Seq::<(Seq<char>, Seq<char>)>::empty(), Seq::<(Seq<char>, Seq<char>)>::empty())),
        ({
            let read = if format == FileFormat::Json { json_object(text) } else { toml_object(text) };
            format != FileFormat::Other ==> {
                &&& read is None ==> sections_spec(text, format) == Err::<(Seq<(Seq<char>, Seq<char>)>, Seq<(Seq<char>, Seq<char>)>), _>(SectionsError::Unparsable)
                &&& read == Some(None::<Seq<(Seq<char>, Seq<char>)>>) ==> sections_spec(text, format)
                    == Ok::<_, SectionsError>((Seq::<(Seq<char>, Seq<char>)>::empty(), Seq::<(Seq<char>, Seq<char>)>::empty()))
                &&& read matches Some(Some(members)) ==> (section_of(members, "cards"@) matches Ok(cards)
                    ==> (section_of(members, "chips"@) matches Ok(chips)
                    ==> sections_spec(text, format) == Ok::<_, SectionsError>((cards, chips))))
                &&& read matches Some(Some(members)) ==> (section_of(members, "cards"@) matches Err(e)
                    ==> sections_spec(text, format) == Err::<(Seq<(Seq<char>, Seq<char>)>, Seq<(Seq<char>, Seq<char>)>), _>(e))
                &&& read matches Some(Some(members)) ==> (section_of(members, "cards"@) is Ok
                    ==> (section_of(members, "chips"@) matches Err(e)
                    ==> sections_spec(text, format) == Err::<(Seq<(Seq<char>, Seq<char>)>, Seq<(Seq<char>, Seq<char>)>), _>(e)))
            }
        }),
{
}

/// What reading a library file gave, by views.
pub open spec fn sections_view(r: Result<LibrarySections, SectionsError>) -> Result<
    (Seq<(Seq<char>, Seq<char>)>, Seq<(Seq<char>, Seq<char>)>),
    SectionsError,
> {
    match r {
        Ok(s) => Ok((members_view(s.cards@), members_view(s.chips@))),
        Err(e) => Err(e),
    }
}

/// The text of the member `key` among `members` (the last one of that
/// name), if there is one.
pub fn member_text(members: &Vec<(String, String)>, key: &str) -> (r: Option<String>)
    ensures
        match r {
            None => member_under(members_view(members@), key@) is None,
            Some(t) => member_under(members_view(members@), key@) == Some(t@),
        },
{
    let key = String::from_str(key);
    let ghost all = members_view(members@);
    let mut found: Option<String> = None;
    for i in 0..members.len()
        invariant
            all == members_view(members@),
            match found {
                None => member_under(all.take(i as int), key@) is None,
                Some(t) => member_under(all.take(i as int), key@) == Some(t@),
            },
    {
        proof {
            assert(all.take(i + 1).drop_last() =~= all.take(i as int));
            assert(all.take(i + 1).last() == all[i as int]);
        }
        if members[i].0 == key {
            found = Some(members[i].1.clone());
        }
    }
    proof {
        assert(all.take(members@.len() as int) =~= all);
    }
    found
}

/// The members of the section `key` of a file's object.
fn section(members: &Vec<(String, String)>, key: &str) -> (r: Result<Vec<(String, String)>, SectionsError>)
    ensures
        match r {
            Ok(s) => section_of(members_view(members@), key@) == Ok::<_, SectionsError>(members_view(s@)),
            Err(e) => section_of(members_view(members@), key@) == Err::<Seq<(Seq<char>, Seq<char>)>, _>(e),
        },
{
    match member_text(members, key) {
        None => {
            let empty: Vec<(String, String)> = Vec::new();
            proof {
                assert(members_view(empty@) =~= Seq::<(Seq<char>, Seq<char>)>::empty());
            }
            Ok(empty)
        },
        Some(text) => match json_members(text.as_str()) {
            Some(Some(section)) => Ok(section),
            _ => Err(SectionsError::NotAnObject),
        },
    }
}

/// Reads a library file of format `format` holding `text`: the members of
/// its `cards` and `chips` objects (see `sections_spec`).
pub fn sections_of_text(text: &str, format: FileFormat) -> (r: Result<LibrarySections, SectionsError>)
    ensures
        sections_view(r) == sections_spec(text@, format),
{
    let read = match format {
        FileFormat::Json => json_members(text),
        FileFormat::Toml => toml_members(text),
        FileFormat::Other => Some(None),
    };
    let members = match read {
        None => {
            return Err(SectionsError::Unparsable);
        },
        Some(None) => {
            let empty = LibrarySections { cards: Vec::new(), chips: Vec::new() };
            proof {
                assert(members_view(empty.cards@) =~= Seq::<(Seq<char>, Seq<char>)>::empty());
                assert(members_view(empty.chips@) =~= Seq::<(Seq<char>, Seq<char>)>::empty());
            }
            return Ok(empty);
        },
        Some(Some(members)) => members,
    };
    let cards = match section(&members, "cards") {
        Ok(s) => s,
        Err(e) => {
            return Err(e);
        },
    };
    let chips = match section(&members, "chips") {
        Ok(s) => s,
        Err(e) => {
            return Err(e);
        },
    };
    Ok(LibrarySections { cards, chips })
}

} // verus!
