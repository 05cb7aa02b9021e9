use vstd::prelude::*;

verus! {

/// The decimal digit `d` as a character.
pub open spec fn digit_char(d: nat) -> char {
    if d == 0 { '0' }
    else if d == 1 { '1' }
    else if d == 2 { '2' }
    else if d == 3 { '3' }
    else if d == 4 { '4' }
    else if d == 5 { '5' }
    else if d == 6 { '6' }
    else if d == 7 { '7' }
    else if d == 8 { '8' }
    else { '9' }
}

/// The decimal notation of `n`, without leading zeros.
pub open spec fn decimal(n: nat) -> Seq<char>
    decreases n,
{
    if n < 10 {
        seq![digit_char(n)]
    } else {
        decimal(n / 10).push(digit_char(n % 10))
    }
}

/// The file an annotated detection is written to: inside the results
/// directory, the detection's index in decimal with the extension.
pub open spec fn result_name(dir: Seq<char>, index: nat) -> Seq<char> {
    dir.push('/') + decimal(index) + seq!['.', 'p', 'n', 'g']
}

fn digit_str(d: usize) -> (r: &'static str)
    requires
        d < 10,
    ensures
        r@ == seq![digit_char(d as nat)],
{
    proof {
        reveal_strlit("0");
        reveal_strlit("1");
        reveal_strlit("2");
        reveal_strlit("3");
        reveal_strlit("4");
        reveal_strlit("5");
        reveal_strlit("6");
        reveal_strlit("7");
        reveal_strlit("8");
        reveal_strlit("9");
    }
    match d {
        0 => "0",
        1 => "1",
        2 => "2",
        3 => "3",
        4 => "4",
        5 => "5",
        6 => "6",
        7 => "7",
        8 => "8",
        _ => "9",
    }
}

fn push_decimal(s: &mut String, n: usize)
    ensures
        final(s)@ == old(s)@ + decimal(n as nat),
    decreases n,
{
    if n >= 10 {
        push_decimal(s, n / 10);
    }
    s.append(digit_str(n % 10));
}

/// The output file for the detection with the given index; see `result_name`.
pub fn result_file_name(dir: &str, index: usize) -> (r: String)
    ensures
        r@ == result_name(dir@, index as nat),
{
    let mut s = dir.to_owned();
    proof {
        reveal_strlit("/");
        reveal_strlit(".png");
    }
    s.append("/");
    push_decimal(&mut s, index);
    s.append(".png");
    assert(s@ =~= result_name(dir@, index as nat));
    s
}

/// The output files for `count` detections in one image, by index: none
/// for an image without detections.
pub fn result_file_names(dir: &str, count: usize) -> (r: Vec<String>)
    ensures
        r@.len() == count,
        forall|i: int| 0 <= i < count ==> (#[trigger] r@[i])@ == result_name(dir@, i as nat),
{
    let mut names: Vec<String> = Vec::new();
    let mut i: usize = 0;
    while i < count
        invariant
            0 <= i <= count,
            names@.len() == i,
            forall|k: int| 0 <= k < i ==> (#[trigger] names@[k])@ == result_name(dir@, k as nat),
        decreases count - i,
    {
        names.push(result_file_name(dir, i));
        i = i + 1;
    }
    names
}

} // verus!
