use vstd::prelude::*;

verus! {

/// The ten recognized nucleotide symbols: `A`, `C`, `G`, `T`, `U` in either case.
pub open spec fn is_nucleotide(c: char) -> bool {
    c == 'A' || c == 'a' || c == 'C' || c == 'c' || c == 'G' || c == 'g' || c == 'T' || c == 't'
        || c == 'U' || c == 'u'
}

/// The pairing partner of a base, keeping its case: A and T pair, C and G pair,
/// and U pairs with A in one direction only. Anything else maps to `N`.
pub open spec fn complement(c: char) -> char {
    if c == 'a' {
        't'
    } else if c == 'c' {
        'g'
    } else if c == 't' {
        'a'
    } else if c == 'g' {
        'c'
    } else if c == 'u' {
        'a'
    } else if c == 'A' {
        'T'
    } else if c == 'C' {
        'G'
    } else if c == 'T' {
        'A'
    } else if c == 'G' {
        'C'
    } else if c == 'U' {
        'A'
    } else {
        'N'
    }
}

/// Every symbol of `s` is a recognized nucleotide.
pub open spec fn all_nucleotides(s: Seq<char>) -> bool {
    forall|i: int| 0 <= i < s.len() ==> is_nucleotide(#[trigger] s[i])
}

/// The reverse complement: position `i` holds the complement of position `n - 1 - i`.
pub open spec fn reverse_complement(s: Seq<char>) -> Seq<char> {
    Seq::new(s.len(), |i: int| complement(s[s.len() - 1 - i]))
}

/// The input held a symbol outside the nucleotide alphabet; `sequence` is the whole input.
#[derive(Debug, Clone, PartialEq, Eq)]
pub struct InvalidSequenceError {
    pub sequence: String,
}

/// Whether `c` is one of the recognized nucleotide symbols.
pub fn is_dna(c: char) -> (r: bool)
    ensures
        r == is_nucleotide(c),
{
    match c {
        'A' | 'a' | 'C' | 'c' | 'G' | 'g' | 'T' | 't' | 'U' | 'u' => true,
        _ => false,
    }
}

/// The complementary base of `c`, with the case of `c`; `N` for an unrecognized symbol.
pub fn switch_base(c: char) -> (r: char)
    ensures
        r == complement(c),
{
    match c {
        'a' => 't',
        'c' => 'g',
        't' => 'a',
        'g' => 'c',
        'u' => 'a',
        'A' => 'T',
        'C' => 'G',
        'T' => 'A',
        'G' => 'C',
        'U' => 'A',
        _ => 'N',
    }
}

/// Relies on `String::push`: appends one character at the end.
#[verifier::external_body]
fn push_char(s: &mut String, c: char)
    ensures
        final(s)@ == old(s)@.push(c),
{
    s.push(c);
}

/// The symbols of `s`, in order.
fn symbols(s: &str) -> (v: Vec<char>)
    ensures
        v@ == s@,
{
    let mut v: Vec<char> = Vec::new();
    for c in it: s.chars()
        invariant
            v@ == it.seq().take(it.index() as int),
    {
        v.push(c);
    }
    v
}

/// The reverse complement of `dna`, or an error naming `dna` when it holds a symbol
/// outside the nucleotide alphabet.
pub fn revcomp(dna: &str) -> (r: Result<String, InvalidSequenceError>)
    ensures
        r is Ok <==> all_nucleotides(dna@),
        r matches Ok(out) ==> out@ == reverse_complement(dna@),
        r matches Ok(out) ==> out@.len() == dna@.len(),
        r matches Err(e) ==> e.sequence@ == dna@,
{
    let v = symbols(dna);
    let mut out = String::new();
    let mut i: usize = v.len();
    while i > 0
        invariant
            v@ == dna@,
            i <= v.len(),
            forall|j: int| i <= j < v.len() ==> is_nucleotide(#[trigger] v@[j]),
            out@ == reverse_complement(dna@).take(v.len() - i),
        decreases i,
    {
        i = i - 1;
        let c = v[i];
        if !is_dna(c) {
            return Err(InvalidSequenceError { sequence: dna.to_string() });
        }
        push_char(&mut out, switch_base(c));
        assert(out@ =~= reverse_complement(dna@).take(v.len() - i));
    }
    assert(out@ =~= reverse_complement(dna@));
    Ok(out)
}

/// Only the DNA bases `A`, `C`, `G`, `T`, in either case.
pub open spec fn is_dna_base(c: char) -> bool {
    c == 'A' || c == 'a' || c == 'C' || c == 'c' || c == 'G' || c == 'g' || c == 'T' || c == 't'
}

/// The reverse complement of a valid sequence is as long as the sequence.
pub proof fn lemma_reverse_complement_len(s: Seq<char>)
    requires
        all_nucleotides(s),
    ensures
        reverse_complement(s).len() == s.len(),
{
}

/// On sequences of `A`, `C`, `G`, `T` (either case) the reverse complement is an
/// involution: its result is again a valid sequence, and taking the reverse
/// complement of it gives back the original.
pub proof fn lemma_reverse_complement_involution(s: Seq<char>)
    requires
        forall|i: int| 0 <= i < s.len() ==> is_dna_base(#[trigger] s[i]),
    ensures
        all_nucleotides(reverse_complement(s)),
        reverse_complement(reverse_complement(s)) == s,
{
    assert(reverse_complement(reverse_complement(s)) =~= s);
}

/// The line the command-line tool prints when no sequence is given.
pub open spec fn usage_message() -> Seq<char> {
    "Please provide a DNA sequence. Example: revcomp ATGCGATTCGA"@
}

/// What the command-line tool prints for its argument: the usage message when there
/// is none, else the reverse complement of the (already trimmed) argument, or the
/// error for an invalid one.
pub fn output_line(arg: Option<&str>) -> (r: Result<String, InvalidSequenceError>)
    ensures
        arg is None ==> (r matches Ok(m) && m@ == usage_message()),
        arg matches Some(dna) ==> (r is Ok <==> all_nucleotides(dna@)),
        arg matches Some(dna) ==> (r matches Ok(out) ==> out@ == reverse_complement(dna@)),
        arg matches Some(dna) ==> (r matches Err(e) ==> e.sequence@ == dna@),
{
    match arg {
        None => {
            let m = "Please provide a DNA sequence. Example: revcomp ATGCGATTCGA";
            proof {
                reveal_strlit("Please provide a DNA sequence. Example: revcomp ATGCGATTCGA");
            }
            Ok(m.to_string())
        },
        Some(dna) => revcomp(dna),
    }
}

} // verus!
