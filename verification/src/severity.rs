use vstd::prelude::*;
use vstd::string::*;

verus! {

/// The log severities that the publisher sends and the consumer subscribes to.
pub open spec fn severities() -> Seq<Seq<char>> {
    seq![seq!['i', 'n', 'f', 'o'], seq!['w', 'a', 'r', 'n', 'i', 'n', 'g'], seq!['e', 'r', 'r', 'o', 'r']]
}

/// The supported log severities, in their order.
pub fn supported_severities() -> (r: Vec<&'static str>)
    ensures
        r@.len() == severities().len(),
        forall|i: int| 0 <= i < r@.len() ==> (#[trigger] r@[i])@ == severities()[i],
{
    proof {
        reveal_strlit("info");
        reveal_strlit("warning");
        reveal_strlit("error");
    }
    let r = vec!["info", "warning", "error"];
    assert(r@[0]@ =~= severities()[0]);
    assert(r@[1]@ =~= severities()[1]);
    assert(r@[2]@ =~= severities()[2]);
    r
}

/// Whether `severity` is one of the supported severities.
pub fn is_supported(severity: &str) -> (r: bool)
    ensures
        r == severities().contains(severity@),
{
    let all = supported_severities();
    let wanted = severity.to_owned();
    let mut i: usize = 0;
    while i < all.len()
        invariant
            i <= all@.len(),
            all@.len() == severities().len(),
            forall|k: int| 0 <= k < all@.len() ==> (#[trigger] all@[k])@ == severities()[k],
            wanted@ == severity@,
            forall|k: int| 0 <= k < i ==> severities()[k] != severity@,
        decreases all@.len() - i,
    {
        let candidate = all[i].to_owned();
        if candidate.eq(&wanted) {
            assert(severities()[i as int] == severity@);
            return true;
        }
        i = i + 1;
    }
    proof {
        if severities().contains(severity@) {
            let k = choose|k: int| 0 <= k < severities().len() && severities()[k] == severity@;
            assert(severities()[k] != severity@);
        }
    }
    false
}

/// Whether the consumer's command line is acceptable: at least one severity after
/// the program name, and every one of them supported.
pub fn consumer_args_ok(args: &Vec<String>) -> (r: bool)
    requires
        args@.len() >= 1,
    ensures
        r == (args@.len() > 1 && forall|i: int|
            1 <= i < args@.len() ==> severities().contains(#[trigger] args@[i]@)),
{
    if args.len() == 1 {
        return false;
    }
    let mut i: usize = 1;
    while i < args.len()
        invariant
            1 <= i <= args@.len(),
            forall|k: int| 1 <= k < i ==> severities().contains(#[trigger] args@[k]@),
        decreases args@.len() - i,
    {
        if !is_supported(args[i].as_str()) {
            return false;
        }
        i = i + 1;
    }
    true
}

/// Each severity with a space on both sides, one after the other.
pub open spec fn spaced(sevs: Seq<Seq<char>>) -> Seq<char>
    decreases sevs.len(),
{
    if sevs.len() == 0 {
        Seq::empty()
    } else {
        spaced(sevs.drop_last()) + seq![' '] + sevs.last() + seq![' ']
    }
}

/// The severities separated by ` | `.
pub open spec fn joined(sevs: Seq<Seq<char>>) -> Seq<char>
    decreases sevs.len(),
{
    if sevs.len() == 0 {
        Seq::empty()
    } else if sevs.len() == 1 {
        sevs[0]
    } else {
        joined(sevs.drop_last()) + seq![' ', '|', ' '] + sevs.last()
    }
}

/// The usage line of the consumer: the program name, then each severity between spaces.
pub fn consumer_usage(program_name: &str) -> (r: String)
    ensures
        r@ == program_name@ + spaced(severities()),
{
    let all = supported_severities();
    let space = " ";
    proof {
        reveal_strlit(" ");
    }
    let mut msg = String::from_str(program_name);
    let mut i: usize = 0;
    assert(severities().take(0) =~= Seq::<Seq<char>>::empty());
    assert(msg@ =~= program_name@ + spaced(severities().take(0)));
    while i < all.len()
        invariant
            i <= all@.len(),
            all@.len() == severities().len(),
            forall|k: int| 0 <= k < all@.len() ==> (#[trigger] all@[k])@ == severities()[k],
            space@ == seq![' '],
            msg@ == program_name@ + spaced(severities().take(i as int)),
        decreases all@.len() - i,
    {
        msg.append(space);
        msg.append(all[i]);
        msg.append(space);
        assert(severities().take(i + 1).drop_last() =~= severities().take(i as int));
        assert(msg@ =~= program_name@ + spaced(severities().take(i + 1)));
        i = i + 1;
    }
    assert(severities().take(all@.len() as int) =~= severities());
    msg
}

/// The usage line of the publisher: the program name, a space, then the
/// severities separated by ` | `.
pub fn publisher_usage(program_name: &str) -> (r: String)
    ensures
        r@ == program_name@ + seq![' '] + joined(severities()),
{
    let all = supported_severities();
    let space = " ";
    let bar = " | ";
    proof {
        reveal_strlit(" ");
        reveal_strlit(" | ");
    }
    let mut msg = String::from_str(program_name);
    msg.append(space);
    let mut i: usize = 0;
    assert(severities().take(0) =~= Seq::<Seq<char>>::empty());
    assert(msg@ =~= program_name@ + seq![' '] + joined(severities().take(0)));
    while i < all.len()
        invariant
            i <= all@.len(),
            all@.len() == severities().len(),
            forall|k: int| 0 <= k < all@.len() ==> (#[trigger] all@[k])@ == severities()[k],
            bar@ == seq![' ', '|', ' '],
            msg@ == program_name@ + seq![' '] + joined(severities().take(i as int)),
        decreases all@.len() - i,
    {
        if i > 0 {
            msg.append(bar);
        }
        msg.append(all[i]);
        assert(severities().take(i + 1).drop_last() =~= severities().take(i as int));
        if i == 0 {
            assert(severities().take(1) =~= seq![severities()[0]]);
        }
        assert(msg@ =~= program_name@ + seq![' '] + joined(severities().take(i + 1)));
        i = i + 1;
    }
    assert(severities().take(all@.len() as int) =~= severities());
    msg
}

/// The text of the log message published with `severity`: the severity in square
/// brackets, then ` Example msg...`.
pub fn log_message(severity: &str) -> (r: String)
    ensures
        r@ == seq!['['] + severity@ + "] Example msg..."@,
{
    let open = "[";
    proof {
        reveal_strlit("[");
    }
    let mut msg = String::from_str(open);
    msg.append(severity);
    msg.append("] Example msg...");
    msg
}

} // verus!
