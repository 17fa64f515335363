//! Names of scene objects with tags attached: `Player.tall.is_fast`.

use vstd::prelude::*;
use vstd::string::*;

verus! {

/// What parts the object's name from its tags, and one tag from the next.
pub const SEPARATOR_CHAR: char = '.';

/// `tag` stands in `s` starting at position `i`.
pub open spec fn occurs_at(s: Seq<char>, tag: Seq<char>, i: int) -> bool {
    &&& 0 <= i
    &&& i + tag.len() <= s.len()
    &&& s.subrange(i, i + tag.len()) == tag
}

/// Position `i` is the first at which `tag` stands in `s`.
pub open spec fn is_first_occurrence(s: Seq<char>, tag: Seq<char>, i: int) -> bool {
    &&& occurs_at(s, tag, i)
    &&& forall|j: int| 0 <= j < i ==> !occurs_at(s, tag, j)
}

/// The first place where `tag` stands in `s` comes right after a separator.
pub open spec fn carries_tag(s: Seq<char>, tag: Seq<char>) -> bool {
    exists|i: int|
        #![trigger occurs_at(s, tag, i)]
        is_first_occurrence(s, tag, i) && i >= 1 && s[i - 1] == SEPARATOR_CHAR
}

/// `s` with a separator and `tag` put behind it.
pub open spec fn with_tag(s: Seq<char>, tag: Seq<char>) -> Seq<char> {
    s.push(SEPARATOR_CHAR) + tag
}

/// The characters of `s`, one by one.
fn chars_of(s: &str) -> (chars: Vec<char>)
    ensures
        chars@ == s@,
{
    let n = s.unicode_len();
    let mut chars: Vec<char> = Vec::new();
    let mut i: usize = 0;
    while i < n
        invariant
            n == s@.len(),
            i <= n,
            chars@ == s@.subrange(0, i as int),
        decreases n - i,
    {
        chars.push(s.get_char(i));
        i = i + 1;
    }
    chars
}

/// Whether `tag` stands in `s` at position `i`.
fn tag_occurs_at(s: &Vec<char>, tag: &Vec<char>, i: usize) -> (found: bool)
    requires
        i + tag@.len() <= s@.len(),
    ensures
        found == occurs_at(s@, tag@, i as int),
{
    let n: usize = s.len();
    let mut k: usize = 0;
    while k < tag.len()
        invariant
            k <= tag@.len(),
            i + tag@.len() <= s@.len() == n,
            forall|m: int| 0 <= m < k ==> s@[i + m] == tag@[m],
        decreases tag@.len() - k,
    {
        if s[i + k] != tag[k] {
            assert(s@.subrange(i as int, i + tag@.len())[k as int] == s@[i + k]);
            return false;
        }
        k = k + 1;
    }
    assert(s@.subrange(i as int, i + tag@.len()) =~= tag@);
    true
}

/// The first position at which `tag` stands in `s`.
fn find_first(s: &Vec<char>, tag: &Vec<char>) -> (at: Option<usize>)
    ensures
        match at {
            Some(i) => is_first_occurrence(s@, tag@, i as int),
            None => forall|j: int| !occurs_at(s@, tag@, j),
        },
{
    if tag.len() > s.len() {
        return None;
    }
    let last: usize = s.len() - tag.len();
    let mut i: usize = 0;
    loop
        invariant
            last == s@.len() - tag@.len(),
            i <= last,
            forall|j: int| 0 <= j < i ==> !occurs_at(s@, tag@, j),
        decreases last - i,
    {
        if tag_occurs_at(s, tag, i) {
            return Some(i);
        }
        if i == last {
            return None;
        }
        i = i + 1;
    }
}

/// The name of a scene object, followed by any number of tags, each behind a
/// separator.
#[derive(Debug, Clone)]
pub struct Descriptor {
    inner: String,
}

impl View for Descriptor {
    type V = Seq<char>;

    closed spec fn view(&self) -> Seq<char> {
        self.inner@
    }
}

impl Descriptor {
    /// The descriptor that reads `name`.
    pub fn from_name(name: &str) -> (descriptor: Self)
        ensures
            descriptor@ == name@,
    {
        Descriptor { inner: String::from_str(name) }
    }

    /// The whole text of the descriptor.
    pub fn as_str(&self) -> (text: &str)
        ensures
            text@ == self@,
    {
        self.inner.as_str()
    }

    /// What stands before the first separator: all of the text if it holds
    /// no separator.
    pub fn object_name(&self) -> (name: &str)
        ensures
            name_end(self@, name@.len() as int),
            name@ == self@.subrange(0, name@.len() as int),
    {
        let text = self.inner.as_str();
        let n = text.unicode_len();
        let mut first_separator: usize = 0;
        while first_separator < n && text.get_char(first_separator) != SEPARATOR_CHAR
            invariant
                n == text@.len(),
                first_separator <= n,
                forall|j: int| 0 <= j < first_separator ==> text@[j] != SEPARATOR_CHAR,
            decreases n - first_separator,
        {
            first_separator = first_separator + 1;
        }
        text.substring_char(0, first_separator)
    }

    /// Whether the descriptor carries `tag_name`: whether the first place
    /// where `tag_name` stands in the text comes right after a separator.
    pub fn has_tag(&self, tag_name: &str) -> (tagged: bool)
        ensures
            tagged == carries_tag(self@, tag_name@),
    {
        let text = chars_of(self.inner.as_str());
        let tag = chars_of(tag_name);
        match find_first(&text, &tag) {
            Some(i) => {
                let tagged = i >= 1 && text[i - 1] == SEPARATOR_CHAR;
                proof {
                    let s = self@;
                    let t = tag_name@;
                    if carries_tag(s, t) {
                        let w = choose|w: int|
                            #![trigger occurs_at(s, t, w)]
                            is_first_occurrence(s, t, w) && w >= 1 && s[w - 1] == SEPARATOR_CHAR;
                        assert(w == i);
                    }
                    if tagged {
                        assert(occurs_at(s, t, i as int));
                    }
                }
                tagged
            },
            None => false,
        }
    }

    /// Puts `tag_name` behind the text unless the descriptor carries it
    /// already.
    pub fn add_tag(&mut self, tag_name: &str)
        ensures
            carries_tag(old(self)@, tag_name@) ==> final(self)@ == old(self)@,
            !carries_tag(old(self)@, tag_name@) ==> final(self)@ == with_tag(
                old(self)@,
                tag_name@,
            ),
    {
        if self.has_tag(tag_name) {
            return ;
        }
        let ghost before = self@;
        proof {
            reveal_strlit(".");
        }
        self.inner.append(".");
        self.inner.append(tag_name);
        assert(self@ =~= with_tag(before, tag_name@));
    }
}

impl From<String> for Descriptor {
    fn from(name_string: String) -> (descriptor: Descriptor) {
        Descriptor { inner: name_string }
    }
}

impl vstd::std_specs::convert::FromSpecImpl<String> for Descriptor {
    open spec fn obeys_from_spec() -> bool {
        true
    }

    closed spec fn from_spec(name_string: String) -> Descriptor {
        Descriptor { inner: name_string }
    }
}

/// The descriptor made from a string reads as the string does.
pub proof fn lemma_from_string_keeps_text(name_string: String)
    ensures
        <Descriptor as vstd::std_specs::convert::FromSpec<String>>::from_spec(name_string)@
            == name_string@,
{
}

/// Where the object's name ends: at the first separator, or at the end of a
/// text without one.
pub open spec fn name_end(s: Seq<char>, n: int) -> bool {
    &&& 0 <= n <= s.len()
    &&& forall|j: int| 0 <= j < n ==> s[j] != SEPARATOR_CHAR
    &&& n < s.len() ==> s[n] == SEPARATOR_CHAR
}

/// Adding a tag leaves the object's name as it is.
pub proof fn lemma_added_tag_keeps_name(s: Seq<char>, tag: Seq<char>, n: int)
    requires
        name_end(s, n),
    ensures
        name_end(with_tag(s, tag), n),
        with_tag(s, tag).subrange(0, n) == s.subrange(0, n),
{
    let t = with_tag(s, tag);
    assert forall|j: int| 0 <= j < n implies t[j] != SEPARATOR_CHAR by {
        assert(t[j] == s[j]);
    }
    if n < s.len() {
        assert(t[n] == s[n]);
    } else {
        assert(t[n] == SEPARATOR_CHAR);
    }
    assert(t.subrange(0, n) =~= s.subrange(0, n));
}

/// A tag that holds no separator, is not empty and stands nowhere in the text
/// is carried once it has been added.
pub proof fn lemma_added_tag_is_carried(s: Seq<char>, tag: Seq<char>)
    requires
        tag.len() > 0,
        !tag.contains(SEPARATOR_CHAR),
        forall|j: int| !occurs_at(s, tag, j),
    ensures
        carries_tag(with_tag(s, tag), tag),
{
    let t = with_tag(s, tag);
    let at = s.len() as int + 1;
    assert(t.len() == s.len() + 1 + tag.len());
    assert(t.subrange(at, at + tag.len()) =~= tag);
    assert(occurs_at(t, tag, at));
    assert forall|j: int| 0 <= j < at implies !occurs_at(t, tag, j) by {
        if occurs_at(t, tag, j) {
            if j + tag.len() <= s.len() {
                assert(s.subrange(j, j + tag.len()) =~= t.subrange(j, j + tag.len()));
                assert(occurs_at(s, tag, j));
            } else {
                // The occurrence would cover the separator behind the text.
                let k = s.len() - j;
                assert(t.subrange(j, j + tag.len())[k] == t[s.len() as int]);
                assert(tag[k] == SEPARATOR_CHAR);
                assert(tag.contains(SEPARATOR_CHAR));
            }
        }
    }
    assert(is_first_occurrence(t, tag, at));
    assert(t[at - 1] == SEPARATOR_CHAR);
}

} // verus!
