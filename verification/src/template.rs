//! The answer-name template: the file name of a test's expected answer is
//! derived from its captured identifier by substituting every occurrence of
//! the placeholder `$test` in the template.

use vstd::prelude::*;

verus! {

/// The placeholder an answer-name template holds where the captured test
/// identifier belongs.
pub open spec fn placeholder() -> Seq<char> {
    seq!['$', 't', 'e', 's', 't']
}

/// The template with every occurrence of the placeholder replaced by `id`,
/// scanning left to right without overlap.
pub open spec fn substituted(template: Seq<char>, id: Seq<char>) -> Seq<char>
    decreases template.len(),
{
    if template.len() == 0 {
        Seq::<char>::empty()
    } else if template.len() >= 5 && template.subrange(0, 5) == placeholder() {
        id + substituted(template.subrange(5, template.len() as int), id)
    } else {
        seq![template[0]] + substituted(template.subrange(1, template.len() as int), id)
    }
}

/// Whether the placeholder stands in `template` at character position `i`.
fn placeholder_at(template: &str, i: usize) -> (r: bool)
    requires
        i < template@.len(),
    ensures
        r == (i + 5 <= template@.len() && template@.subrange(i as int, i as int + 5)
            == placeholder()),
{
    let n = template.unicode_len();
    if n - i < 5 {
        return false;
    }
    let c0 = template.get_char(i);
    let c1 = template.get_char(i + 1);
    let c2 = template.get_char(i + 2);
    let c3 = template.get_char(i + 3);
    let c4 = template.get_char(i + 4);
    let r = c0 == '$' && c1 == 't' && c2 == 'e' && c3 == 's' && c4 == 't';
    proof {
        let sub = template@.subrange(i as int, i as int + 5);
        assert(sub[0] == c0 && sub[1] == c1 && sub[2] == c2 && sub[3] == c3 && sub[4] == c4);
        if r {
            assert(sub =~= placeholder());
        } else {
            assert(sub != placeholder());
        }
    }
    r
}

/// Executable form of [`substituted`]: derives an answer file name from the
/// template and the captured identifier.
pub fn substitute(template: &str, id: &str) -> (r: String)
    ensures
        r@ == substituted(template@, id@),
{
    let n = template.unicode_len();
    let mut r = String::new();
    let mut i: usize = 0;
    proof {
        assert(template@.subrange(0, n as int) =~= template@);
        assert(r@ + substituted(template@, id@) =~= substituted(template@, id@));
    }
    while i < n
        invariant
            i <= n,
            n == template@.len(),
            substituted(template@, id@) == r@ + substituted(
                template@.subrange(i as int, n as int),
                id@,
            ),
        decreases n - i,
    {
        let ghost rem = template@.subrange(i as int, n as int);
        if placeholder_at(template, i) {
            r.append(id);
            proof {
                assert(rem.subrange(0, 5) =~= template@.subrange(i as int, i as int + 5));
                assert(rem.subrange(5, rem.len() as int) =~= template@.subrange(
                    i as int + 5,
                    n as int,
                ));
                assert(substituted(rem, id@) == id@ + substituted(
                    template@.subrange(i as int + 5, n as int),
                    id@,
                ));
            }
            i = i + 5;
        } else {
            let piece = template.substring_char(i, i + 1);
            r.append(piece);
            proof {
                if rem.len() >= 5 {
                    assert(rem.subrange(0, 5) =~= template@.subrange(i as int, i as int + 5));
                }
                assert(rem.subrange(1, rem.len() as int) =~= template@.subrange(
                    i as int + 1,
                    n as int,
                ));
                assert(piece@ =~= seq![rem[0]]);
                assert(substituted(rem, id@) == seq![rem[0]] + substituted(
                    template@.subrange(i as int + 1, n as int),
                    id@,
                ));
            }
            i = i + 1;
        }
        proof {
            assert(substituted(template@, id@) == r@ + substituted(
                template@.subrange(i as int, n as int),
                id@,
            ));
        }
    }
    proof {
        assert(substituted(template@.subrange(n as int, n as int), id@) == Seq::<char>::empty());
        assert(r@ =~= r@ + Seq::<char>::empty());
    }
    r
}

} // verus!
