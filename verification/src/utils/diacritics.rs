//! Folding of accented letters to plain ones, for the matching of chat text.
use vstd::prelude::*;
use vstd::string::StringExecFns;

verus! {

/// What stands for the character `c` once its accent is taken away: the
/// plain letter for an accented one (two letters for the sharp s), and `c`
/// itself for every other character.
pub open spec fn folded(c: char) -> Seq<char> {
    match c {
        'Ă' | 'À' | 'Á' | 'Â' | 'Ã' | 'Ä' | 'Å' | 'Æ' => seq!['A'],
        'Þ' => seq!['B'],
        'Ç' | 'Č' => seq!['C'],
        'Ď' | 'Ð' => seq!['D'],
        'Ě' | 'È' | 'É' | 'Ê' | 'Ë' => seq!['E'],
        'Ƒ' => seq!['F'],
        'Ì' | 'Í' | 'Î' | 'Ï' => seq!['I'],
        'Ň' | 'Ñ' => seq!['N'],
        'Ò' | 'Ó' | 'Ô' | 'Õ' | 'Ö' | 'Ø' => seq!['O'],
        'Ř' => seq!['R'],
        'ß' => seq!['s', 's'],
        'Ș' | 'Š' => seq!['S'],
        'Ț' | 'Ť' => seq!['T'],
        'Ů' | 'Ù' | 'Ú' | 'Û' | 'Ü' => seq!['U'],
        'Ý' => seq!['Y'],
        'Ž' => seq!['Z'],
        'ă' | 'à' | 'á' | 'â' | 'ã' | 'ä' | 'å' | 'æ' => seq!['a'],
        'þ' => seq!['b'],
        'ç' | 'č' => seq!['c'],
        'ď' | 'ð' => seq!['d'],
        'ě' | 'è' | 'é' | 'ê' | 'ë' => seq!['e'],
        'ƒ' => seq!['f'],
        'ì' | 'í' | 'î' | 'ï' => seq!['i'],
        'ñ' | 'ň' => seq!['n'],
        'ò' | 'ó' | 'ô' | 'õ' | 'ö' | 'ø' => seq!['o'],
        'ř' => seq!['r'],
        'ș' | 'š' => seq!['s'],
        'ț' | 'ť' => seq!['t'],
        'ů' | 'ù' | 'ú' | 'û' | 'ü' => seq!['u'],
        'ý' | 'ÿ' => seq!['y'],
        'ž' => seq!['z'],
        _ => seq![c],
    }
}

/// The text `text` with every character folded.
pub open spec fn cleaned(text: Seq<char>) -> Seq<char>
    decreases text.len(),
{
    if text.len() == 0 {
        Seq::empty()
    } else {
        cleaned(text.drop_last()) + folded(text.last())
    }
}

/// Folding reads a text piece by piece: to clean two texts written one
/// after the other is to clean each and write the results one after the
/// other.
pub proof fn lemma_cleaned_concat(a: Seq<char>, b: Seq<char>)
    ensures
        cleaned(a + b) == cleaned(a) + cleaned(b),
    decreases b.len(),
{
    if b.len() == 0 {
        assert(a + b =~= a);
        assert(cleaned(a) + cleaned(b) =~= cleaned(a));
    } else {
        lemma_cleaned_concat(a, b.drop_last());
        assert((a + b).drop_last() =~= a + b.drop_last());
        assert((a + b).last() == b.last());
        assert((cleaned(a) + cleaned(b.drop_last())) + folded(b.last()) =~= cleaned(a) + (cleaned(
            b.drop_last(),
        ) + folded(b.last())));
    }
}

/// A folded character is made of characters that folding leaves alone.
pub proof fn lemma_folded_is_plain(c: char)
    ensures
        cleaned(folded(c)) == folded(c),
        1 <= folded(c).len() <= 2,
{
    let f = folded(c);
    if f.len() == 1 {
        assert(f.drop_last() =~= Seq::<char>::empty());
        assert(cleaned(f.drop_last()) =~= Seq::<char>::empty());
        assert(folded(f[0]) =~= seq![f[0]]);
        assert(cleaned(f) =~= f);
    } else {
        assert(f =~= seq!['s', 's']);
        assert(f.drop_last() =~= seq!['s']);
        assert(f.drop_last().drop_last() =~= Seq::<char>::empty());
        assert(cleaned(f.drop_last().drop_last()) =~= Seq::<char>::empty());
        assert(cleaned(f.drop_last()) =~= seq!['s']);
        assert(cleaned(f) =~= f);
    }
}

/// To clean a clean text changes nothing, and cleaning never makes a text
/// shorter.
pub proof fn lemma_cleaned_twice(text: Seq<char>)
    ensures
        cleaned(cleaned(text)) == cleaned(text),
        cleaned(text).len() >= text.len(),
    decreases text.len(),
{
    if text.len() > 0 {
        lemma_cleaned_twice(text.drop_last());
        lemma_cleaned_concat(cleaned(text.drop_last()), folded(text.last()));
        lemma_folded_is_plain(text.last());
    }
}

/// Folding leaves the characters of ASCII as they are.
pub proof fn lemma_ascii_is_clean(text: Seq<char>)
    requires
        forall|i: int| 0 <= i < text.len() ==> (text[i] as u32) < 128,
    ensures
        cleaned(text) == text,
    decreases text.len(),
{
    if text.len() > 0 {
        lemma_ascii_is_clean(text.drop_last());
        assert(folded(text.last()) =~= seq![text.last()]);
        assert(text.drop_last() + seq![text.last()] =~= text);
    }
}

/// The text of one character, from `char::to_string` of the standard
/// library: the result holds `c` and nothing else.
#[verifier::external_body]
fn char_to_string(c: char) -> (s: String)
    ensures
        s@ == seq![c],
{
    c.to_string()
}

/// The plain spelling of one character.
pub fn find_char_match(c: char) -> (r: String)
    ensures
        r@ == folded(c),
{
    proof {
        reveal_strlit("A");
        reveal_strlit("B");
        reveal_strlit("C");
        reveal_strlit("D");
        reveal_strlit("E");
        reveal_strlit("F");
        reveal_strlit("I");
        reveal_strlit("N");
        reveal_strlit("O");
        reveal_strlit("R");
        reveal_strlit("S");
        reveal_strlit("T");
        reveal_strlit("U");
        reveal_strlit("Y");
        reveal_strlit("Z");
        reveal_strlit("a");
        reveal_strlit("b");
        reveal_strlit("c");
        reveal_strlit("d");
        reveal_strlit("e");
        reveal_strlit("f");
        reveal_strlit("i");
        reveal_strlit("n");
        reveal_strlit("o");
        reveal_strlit("r");
        reveal_strlit("s");
        reveal_strlit("ss");
        reveal_strlit("t");
        reveal_strlit("u");
        reveal_strlit("y");
        reveal_strlit("z");
    }
    match c {
        'Ă' | 'À' | 'Á' | 'Â' | 'Ã' | 'Ä' | 'Å' | 'Æ' => String::from_str("A"),
        'Þ' => String::from_str("B"),
        'Ç' | 'Č' => String::from_str("C"),
        'Ď' | 'Ð' => String::from_str("D"),
        'Ě' | 'È' | 'É' | 'Ê' | 'Ë' => String::from_str("E"),
        'Ƒ' => String::from_str("F"),
        'Ì' | 'Í' | 'Î' | 'Ï' => String::from_str("I"),
        'Ň' | 'Ñ' => String::from_str("N"),
        'Ò' | 'Ó' | 'Ô' | 'Õ' | 'Ö' | 'Ø' => String::from_str("O"),
        'Ř' => String::from_str("R"),
        'ß' => String::from_str("ss"),
        'Ș' | 'Š' => String::from_str("S"),
        'Ț' | 'Ť' => String::from_str("T"),
        'Ů' | 'Ù' | 'Ú' | 'Û' | 'Ü' => String::from_str("U"),
        'Ý' => String::from_str("Y"),
        'Ž' => String::from_str("Z"),
        'ă' | 'à' | 'á' | 'â' | 'ã' | 'ä' | 'å' | 'æ' => String::from_str("a"),
        'þ' => String::from_str("b"),
        'ç' | 'č' => String::from_str("c"),
        'ď' | 'ð' => String::from_str("d"),
        'ě' | 'è' | 'é' | 'ê' | 'ë' => String::from_str("e"),
        'ƒ' => String::from_str("f"),
        'ì' | 'í' | 'î' | 'ï' => String::from_str("i"),
        'ñ' | 'ň' => String::from_str("n"),
        'ò' | 'ó' | 'ô' | 'õ' | 'ö' | 'ø' => String::from_str("o"),
        'ř' => String::from_str("r"),
        'ș' | 'š' => String::from_str("s"),
        'ț' | 'ť' => String::from_str("t"),
        'ů' | 'ù' | 'ú' | 'û' | 'ü' => String::from_str("u"),
        'ý' | 'ÿ' => String::from_str("y"),
        'ž' => String::from_str("z"),
        _ => char_to_string(c),
    }
}

/// The text `string` without its accents.
pub fn clean_all(string: &str) -> (r: String)
    ensures
        r@ == cleaned(string@),
{
    let mut out = String::new();
    for c in it: string.chars()
        invariant
            it.seq() == string@,
            out@ == cleaned(string@.subrange(0, it.index() as int)),
    {
        let plain = find_char_match(c);
        out.append(plain.as_str());
        proof {
            let next = string@.subrange(0, it.index() + 1);
            assert(next.drop_last() =~= string@.subrange(0, it.index() as int));
            assert(next.last() == c);
        }
    }
    assert(string@.subrange(0, string@.len() as int) =~= string@);
    out
}

} // verus!
