//! The laws a run obeys, proved from the same spec functions that the
//! executable functions' contracts use.

use crate::aggregate::AiringErrorView;
use crate::aggregate::SeriesFetchView;
use crate::aggregate::airings_spec;
use crate::aggregate::line_spec;
use crate::aggregate::step_spec;
use crate::episode::Field;
use crate::episode::field_at;
use crate::extract::page_spec;
use crate::query::query_texts;
use crate::query::selector_spec;
use crate::text::trim_spec;
use vstd::prelude::*;

verus! {

/// A run over zero identifiers succeeds and produces no output.
pub proof fn lemma_empty_run()
    ensures
        airings_spec(Seq::<SeriesFetchView>::empty()) == Ok::<Seq<Seq<char>>, AiringErrorView>(
            Seq::<Seq<char>>::empty(),
        ),
{
}

/// A page on which the structural query matches nothing yields exactly
/// the line `<series>: no episode scheduled to air` — a normal outcome,
/// never an error.
pub proof fn lemma_no_match_line(series: Seq<char>, html: Seq<char>)
    requires
        query_texts(html, selector_spec()).len() == 0,
    ensures
        line_spec(series, html) == Ok::<Seq<char>, Field>(
            series + ": no episode scheduled to air"@,
        ),
{
}

/// A matched node with at least four element children yields the line
/// `<series> <number>: "<title>" (<countdown>)`, each field the verbatim
/// text of one child, trimmed of surrounding whitespace only.
pub proof fn lemma_full_node_line(series: Seq<char>, html: Seq<char>)
    requires
        query_texts(html, selector_spec()).len() > 0,
        query_texts(html, selector_spec()).last().len() >= 4,
    ensures
        line_spec(series, html) == ({
            let node = query_texts(html, selector_spec()).last();
            Ok::<Seq<char>, Field>(
                trim_spec(node[0]) + " "@ + trim_spec(node[1]) + ": \""@ + trim_spec(node[2])
                    + "\" ("@ + trim_spec(node[3]) + ")"@,
            )
        }),
{
}

/// A matched node with fewer than four element children fails extraction
/// with the first absent field in document order: with `k` children
/// present, the field at position `k`.
pub proof fn lemma_missing_field(series: Seq<char>, html: Seq<char>)
    requires
        query_texts(html, selector_spec()).len() > 0,
        query_texts(html, selector_spec()).last().len() < 4,
    ensures
        line_spec(series, html) == Err::<Seq<char>, Field>(
            field_at(query_texts(html, selector_spec()).last().len() as int),
        ),
{
}

/// Only the last match in document order decides a page's outcome: two
/// pages whose result sets end in the same node have the same outcome,
/// however many earlier matches either holds and whatever they contain.
pub proof fn lemma_last_match_decides(html1: Seq<char>, html2: Seq<char>)
    requires
        query_texts(html1, selector_spec()).len() > 0,
        query_texts(html2, selector_spec()).len() > 0,
        query_texts(html1, selector_spec()).last() == query_texts(html2, selector_spec()).last(),
    ensures
        page_spec(html1) == page_spec(html2),
{
}

/// Fail-fast, whole batch: when every entry before position `j` yields
/// its line and entry `j` fails, the run reports exactly entry `j`'s
/// error — no lines are produced and entries after `j` never matter.
pub proof fn lemma_fail_fast(batch: Seq<SeriesFetchView>, j: int)
    requires
        0 <= j < batch.len(),
        forall|i: int| 0 <= i < j ==> (#[trigger] step_spec(batch[i])) is Ok,
        step_spec(batch[j]) is Err,
    ensures
        airings_spec(batch) == Err::<Seq<Seq<char>>, AiringErrorView>(step_spec(batch[j])->Err_0),
    decreases j,
{
    if j > 0 {
        assert(step_spec(batch[0]) is Ok);
        assert forall|i: int| 0 <= i < j - 1 implies (#[trigger] step_spec(
            batch.drop_first()[i],
        )) is Ok by {
            assert(batch.drop_first()[i] == batch[i + 1]);
            assert(step_spec(batch[i + 1]) is Ok);
        }
        assert(batch.drop_first()[j - 1] == batch[j]);
        lemma_fail_fast(batch.drop_first(), j - 1);
    }
}

/// Idempotence: a run's outcome is a function of its identifiers and the
/// fetched pages alone, so repeating a run against unchanged pages yields
/// identical output.
pub proof fn lemma_repeat_run(
    batch: Seq<SeriesFetchView>,
    r1: Result<Seq<Seq<char>>, AiringErrorView>,
    r2: Result<Seq<Seq<char>>, AiringErrorView>,
)
    requires
        r1 == airings_spec(batch),
        r2 == airings_spec(batch),
    ensures
        r1 == r2,
{
}

} // verus!
