use vstd::prelude::*;

verus! {

/// Gender of a synthetic voice.
#[derive(Debug, Clone, Copy, PartialEq, Eq, Structural)]
pub enum Gender {
    Female,
    Male,
}

/// Synthesis engine of the speech service.
#[derive(Debug, Clone, Copy, PartialEq, Eq, Structural)]
pub enum Engine {
    Neural,
    Standard,
}

/// One entry of the speech service's voice catalog.
#[derive(Debug, Clone)]
pub struct VoiceDescriptor {
    pub id: Option<String>,
    pub name: Option<String>,
    pub gender: Option<Gender>,
}

/// The characters of an optional string.
pub open spec fn opt_chars(o: Option<String>) -> Option<Seq<char>> {
    match o {
        Some(s) => Some(s@),
        None => None,
    }
}

/// A voice matches when its name and its gender equal the filters exactly:
/// an absent filter matches only a voice on which that field is absent too.
pub open spec fn voice_matches(v: VoiceDescriptor, name: Option<Seq<char>>, gender: Option<Gender>) -> bool {
    opt_chars(v.name) == name && v.gender == gender
}

/// The position of the first voice of the catalog that matches, if any.
pub open spec fn first_match(voices: Seq<VoiceDescriptor>, name: Option<Seq<char>>, gender: Option<Gender>) -> Option<int>
    decreases voices.len(),
{
    if voices.len() == 0 {
        None
    } else if voice_matches(voices[0], name, gender) {
        Some(0)
    } else {
        match first_match(voices.drop_first(), name, gender) {
            Some(i) => Some(i + 1),
            None => None,
        }
    }
}

fn same_name(a: &Option<String>, b: &Option<String>) -> (r: bool)
    ensures
        r == (opt_chars(*a) == opt_chars(*b)),
{
    match (a, b) {
        (Some(x), Some(y)) => *x == *y,
        (None, None) => true,
        _ => false,
    }
}

fn same_gender(a: &Option<Gender>, b: &Option<Gender>) -> (r: bool)
    ensures
        r == (*a == *b),
{
    match (a, b) {
        (Some(x), Some(y)) => *x == *y,
        (None, None) => true,
        _ => false,
    }
}

/// Picks the first voice of the catalog, in the order given, whose name and
/// gender equal the filters exactly; its position, or `None`.
pub fn select_voice(voices: &Vec<VoiceDescriptor>, name: &Option<String>, gender: &Option<Gender>) -> (r: Option<usize>)
    ensures
        match r {
            Some(i) => first_match(voices@, opt_chars(*name), *gender) == Some(i as int),
            None => first_match(voices@, opt_chars(*name), *gender) is None,
        },
        r matches Some(i) ==> i < voices@.len(),
{
    let mut i: usize = 0;
    while i < voices.len()
        invariant
            i <= voices@.len(),
            forall|j: int| 0 <= j < i ==> !voice_matches(#[trigger] voices@[j], opt_chars(*name), *gender),
        decreases voices.len() - i,
    {
        let v = &voices[i];
        if same_name(&v.name, name) && same_gender(&v.gender, gender) {
            proof { lemma_first_match_at(voices@, opt_chars(*name), *gender, i as int); }
            return Some(i);
        }
        i = i + 1;
    }
    proof { lemma_first_match_none(voices@, opt_chars(*name), *gender); }
    None
}

/// `first_match` finds `i` when the voice at `i` matches and none before it does.
proof fn lemma_first_match_at(voices: Seq<VoiceDescriptor>, name: Option<Seq<char>>, gender: Option<Gender>, i: int)
    requires
        0 <= i < voices.len(),
        voice_matches(voices[i], name, gender),
        forall|j: int| 0 <= j < i ==> !voice_matches(#[trigger] voices[j], name, gender),
    ensures
        first_match(voices, name, gender) == Some(i),
    decreases i,
{
    if i > 0 {
        let rest = voices.drop_first();
        assert forall|j: int| 0 <= j < i - 1 implies !voice_matches(#[trigger] rest[j], name, gender) by {
            assert(rest[j] == voices[j + 1]);
        }
        assert(rest[i - 1] == voices[i]);
        assert(!voice_matches(voices[0], name, gender));
        lemma_first_match_at(rest, name, gender, i - 1);
    }
}

/// `first_match` finds nothing when no voice matches.
proof fn lemma_first_match_none(voices: Seq<VoiceDescriptor>, name: Option<Seq<char>>, gender: Option<Gender>)
    requires
        forall|j: int| 0 <= j < voices.len() ==> !voice_matches(#[trigger] voices[j], name, gender),
    ensures
        first_match(voices, name, gender) is None,
    decreases voices.len(),
{
    if voices.len() > 0 {
        let rest = voices.drop_first();
        assert forall|j: int| 0 <= j < rest.len() implies !voice_matches(#[trigger] rest[j], name, gender) by {
            assert(rest[j] == voices[j + 1]);
        }
        assert(!voice_matches(voices[0], name, gender));
        lemma_first_match_none(rest, name, gender);
    }
}

} // verus!

verus! {

/// What `first_match` found: a matching voice with none before it, or no
/// matching voice at all.
proof fn lemma_first_match_found(voices: Seq<VoiceDescriptor>, name: Option<Seq<char>>, gender: Option<Gender>)
    ensures
        first_match(voices, name, gender) matches Some(i) ==> {
            &&& 0 <= i < voices.len()
            &&& voice_matches(voices[i], name, gender)
            &&& forall|j: int| 0 <= j < i ==> !voice_matches(#[trigger] voices[j], name, gender)
        },
        first_match(voices, name, gender) is None ==> forall|j: int| 0 <= j < voices.len() ==> !voice_matches(#[trigger] voices[j], name, gender),
    decreases voices.len(),
{
    if voices.len() > 0 && !voice_matches(voices[0], name, gender) {
        let rest = voices.drop_first();
        lemma_first_match_found(rest, name, gender);
        assert forall|j: int| 0 < j < voices.len() implies #[trigger] voices[j] == rest[j - 1] by {}
    }
}

/// Voice selection is first-match in catalog order: `first_match` picks
/// position `i` exactly when the voice there matches and no earlier one does,
/// and picks nothing exactly when no voice matches. So the same catalog and
/// filters always give the same voice, or none.
pub proof fn lemma_first_match_characterization(voices: Seq<VoiceDescriptor>, name: Option<Seq<char>>, gender: Option<Gender>)
    ensures
        first_match(voices, name, gender) matches Some(i) ==> {
            &&& 0 <= i < voices.len()
            &&& voice_matches(voices[i], name, gender)
            &&& forall|j: int| 0 <= j < i ==> !voice_matches(#[trigger] voices[j], name, gender)
        },
        forall|i: int| 0 <= i < voices.len() && #[trigger] voice_matches(voices[i], name, gender)
            && (forall|j: int| 0 <= j < i ==> !voice_matches(#[trigger] voices[j], name, gender))
            ==> first_match(voices, name, gender) == Some(i),
        first_match(voices, name, gender) is None <==> forall|j: int| 0 <= j < voices.len() ==> !voice_matches(#[trigger] voices[j], name, gender),
{
    lemma_first_match_found(voices, name, gender);
    assert forall|i: int| 0 <= i < voices.len() && #[trigger] voice_matches(voices[i], name, gender)
        && (forall|j: int| 0 <= j < i ==> !voice_matches(#[trigger] voices[j], name, gender))
        implies first_match(voices, name, gender) == Some(i) by {
        lemma_first_match_at(voices, name, gender, i);
    }
    if forall|j: int| 0 <= j < voices.len() ==> !voice_matches(#[trigger] voices[j], name, gender) {
        lemma_first_match_none(voices, name, gender);
    }
}

/// With neither a name nor a gender filter, no voice is selected from a
/// catalog in which every voice has a name or a gender: an absent filter
/// matches only a voice on which that field is absent too.
pub proof fn lemma_no_filters_select_nothing(voices: Seq<VoiceDescriptor>)
    requires
        forall|j: int| 0 <= j < voices.len() ==> (#[trigger] voices[j]).name is Some || voices[j].gender is Some,
    ensures
        first_match(voices, None, None) is None,
{
    lemma_first_match_characterization(voices, None, None);
    assert forall|j: int| 0 <= j < voices.len() implies !voice_matches(#[trigger] voices[j], None, None) by {
        assert(voices[j].name is Some || voices[j].gender is Some);
    }
}

} // verus!
