//! Parsing of the attribute's argument list.
//!
//! The one recognized key is `sealed`; its presence turns sealing on. Any
//! other key is rejected, and the first unrecognized key wins.

use vstd::prelude::*;

use crate::ast::{Diagnostic, DiagnosticKind, DiagnosticKindView, DiagnosticView, OptionArg,
    OptionArgView, Options};

verus! {

/// What parsing the argument list yields, walked left to right: the first
/// key other than `sealed` is rejected; otherwise sealing is on exactly
/// when the list is non-empty.
pub open spec fn spec_parse_options(args: Seq<OptionArgView>) -> Result<Options, DiagnosticView>
    decreases args.len(),
{
    if args.len() == 0 {
        Ok(Options { sealed: false })
    } else if args[0].key != "sealed"@ {
        Err(
            DiagnosticView {
                kind: DiagnosticKindView::UnrecognizedOption { key: args[0].key },
                span: args[0].span,
            },
        )
    } else {
        match spec_parse_options(args.skip(1)) {
            Ok(_) => Ok(Options { sealed: true }),
            Err(e) => Err(e),
        }
    }
}

/// Once every key of a prefix has been recognized, the rest of the list
/// decides the outcome: an error there is the whole list's error, and
/// success means sealing is on exactly when the whole list is non-empty.
pub proof fn lemma_parse_options_prefix(args: Seq<OptionArgView>, i: int)
    requires
        0 <= i <= args.len(),
        forall|j: int| 0 <= j < i ==> (#[trigger] args[j]).key == "sealed"@,
    ensures
        spec_parse_options(args.skip(i)) is Err ==> spec_parse_options(args)
            == spec_parse_options(args.skip(i)),
        spec_parse_options(args.skip(i)) is Ok ==> spec_parse_options(args) == Ok::<
            Options,
            DiagnosticView,
        >(Options { sealed: args.len() > 0 }),
    decreases i,
{
    if i > 0 {
        assert(args.skip(i - 1).len() == args.len() - i + 1);
        assert(args.skip(i - 1)[0] == args[i - 1]);
        assert(args.skip(i - 1).skip(1) =~= args.skip(i));
        lemma_parse_options_prefix(args, i - 1);
    } else {
        assert(args.skip(0) =~= args);
    }
}

/// Parses the attribute's argument list, as [`spec_parse_options`] says.
pub fn parse_options(args: &Vec<OptionArg>) -> (r: Result<Options, Diagnostic>)
    ensures
        spec_parse_options(args.deep_view()) is Ok ==> r is Ok && r->Ok_0 == spec_parse_options(
            args.deep_view(),
        )->Ok_0,
        spec_parse_options(args.deep_view()) is Err ==> r is Err && r->Err_0@
            == spec_parse_options(args.deep_view())->Err_0,
{
    let sealed_key = "sealed".to_owned();
    let mut i: usize = 0;
    while i < args.len()
        invariant
            0 <= i <= args@.len(),
            sealed_key@ == "sealed"@,
            forall|j: int| 0 <= j < i ==> (#[trigger] args.deep_view()[j]).key == "sealed"@,
        decreases args@.len() - i,
    {
        if args[i].key != sealed_key {
            proof {
                let ghost av = args.deep_view();
                assert(av.skip(i as int)[0] == av[i as int]);
                assert(spec_parse_options(av.skip(i as int)) == Err::<Options, DiagnosticView>(
                    DiagnosticView {
                        kind: DiagnosticKindView::UnrecognizedOption { key: av[i as int].key },
                        span: av[i as int].span,
                    },
                ));
                lemma_parse_options_prefix(av, i as int);
            }
            return Err(
                Diagnostic {
                    kind: DiagnosticKind::UnrecognizedOption { key: args[i].key.clone() },
                    span: args[i].span,
                },
            );
        }
        i = i + 1;
    }
    proof {
        let ghost av = args.deep_view();
        assert(av.skip(av.len() as int) =~= Seq::<OptionArgView>::empty());
        lemma_parse_options_prefix(av, av.len() as int);
    }
    Ok(Options { sealed: args.len() > 0 })
}

} // verus!
