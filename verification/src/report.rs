//! Rendering failures to the human-readable reports handed to the caller:
//! validation failures with full per-issue detail, every other failure as
//! its opaque diagnostic behind a fixed heading.

use vstd::prelude::*;
use vstd::string::StringExecFns;
use crate::model::ExcedenciaError;
use crate::model::IssueView;
use crate::model::ValidationError;
use crate::model::issues_view;

verus! {

/// One issue line of the plain validation report.
pub open spec fn issue_line(iv: IssueView) -> Seq<char> {
    "  - "@ + iv.path + ": "@ + iv.message + "\n"@
}

/// The plain validation report body: one line per issue, in order.
pub open spec fn issues_report(issues: Seq<IssueView>) -> Seq<char>
    decreases issues.len(),
{
    if issues.len() == 0 {
        Seq::empty()
    } else {
        issues_report(issues.drop_last()) + issue_line(issues.last())
    }
}

/// One issue line of the field-by-field validation report.
pub open spec fn campo_line(iv: IssueView) -> Seq<char> {
    "  - Campo '"@ + iv.path + "': "@ + iv.message + "\n"@
}

/// The field-by-field validation report body: one line per issue, in order.
pub open spec fn campo_report(issues: Seq<IssueView>) -> Seq<char>
    decreases issues.len(),
{
    if issues.len() == 0 {
        Seq::empty()
    } else {
        campo_report(issues.drop_last()) + campo_line(issues.last())
    }
}

impl ExcedenciaError {
    /// The human-readable description of a failed evaluation: validation
    /// failures list every issue with its path and message; the other kinds
    /// carry their opaque diagnostic behind a fixed heading.
    pub fn render(&self) -> (r: String)
        ensures
            match self {
                ExcedenciaError::ValidationError(errs) => r@ == "Errores de validación:\n"@
                    + issues_report(issues_view(errs@)),
                ExcedenciaError::ZenEngineError(m) => r@ == "Error del motor de decisión: "@
                    + m@,
                ExcedenciaError::SerializationError(m) => r@ == "Error de serialización: "@
                    + m@,
            },
    {
        match self {
            ExcedenciaError::ValidationError(errs) => {
                let mut s = String::new();
                s.append("Errores de validación:\n");
                let mut k: usize = 0;
                while k < errs.len()
                    invariant
                        0 <= k <= errs@.len(),
                        s@ == "Errores de validación:\n"@ + issues_report(
                            issues_view(errs@).take(k as int),
                        ),
                    decreases errs@.len() - k,
                {
                    s.append("  - ");
                    s.append(errs[k].path.as_str());
                    s.append(": ");
                    s.append(errs[k].message.as_str());
                    s.append("\n");
                    proof {
                        let ivs = issues_view(errs@);
                        assert(ivs.take(k + 1).drop_last() =~= ivs.take(k as int));
                        assert(ivs.take(k + 1).last() == ivs[k as int]);
                        assert(ivs[k as int] == errs@[k as int]@);
                        assert(s@ =~= "Errores de validación:\n"@ + issues_report(
                            ivs.take(k + 1),
                        ));
                    }
                    k += 1;
                }
                proof {
                    assert(issues_view(errs@).take(errs@.len() as int) =~= issues_view(errs@));
                }
                s
            },
            ExcedenciaError::ZenEngineError(m) => {
                let mut s = String::new();
                s.append("Error del motor de decisión: ");
                s.append(m.as_str());
                s
            },
            ExcedenciaError::SerializationError(m) => {
                let mut s = String::new();
                s.append("Error de serialización: ");
                s.append(m.as_str());
                s
            },
        }
    }
}

/// The full field-by-field validation report: the heading, then one line
/// per issue naming the offending field and its message, in order.
pub fn render_validation_report(errors: &Vec<ValidationError>) -> (r: String)
    ensures
        r@ == "Errores de validación:\n"@ + campo_report(issues_view(errors@)),
{
    let mut s = String::new();
    s.append("Errores de validación:\n");
    let mut k: usize = 0;
    while k < errors.len()
        invariant
            0 <= k <= errors@.len(),
            s@ == "Errores de validación:\n"@ + campo_report(issues_view(errors@).take(k as int)),
        decreases errors@.len() - k,
    {
        s.append("  - Campo '");
        s.append(errors[k].path.as_str());
        s.append("': ");
        s.append(errors[k].message.as_str());
        s.append("\n");
        proof {
            let ivs = issues_view(errors@);
            assert(ivs.take(k + 1).drop_last() =~= ivs.take(k as int));
            assert(ivs.take(k + 1).last() == ivs[k as int]);
            assert(ivs[k as int] == errors@[k as int]@);
            assert(s@ =~= "Errores de validación:\n"@ + campo_report(ivs.take(k + 1)));
        }
        k += 1;
    }
    proof {
        assert(issues_view(errors@).take(errors@.len() as int) =~= issues_view(errors@));
    }
    s
}

} // verus!
