//! Building blocks of the printable HTML reports: escaping, tables, sections, the German /
//! Spanish number notation, and the key-figure cards of a title page.
pub mod builder;

pub mod format;

pub mod grouping;

pub mod style;

use vstd::prelude::*;

use crate::decimal::Decimal;
use crate::tax_statement::eur::{eur_ok, eur_text};

use self::builder::{escape, escape_html};
use self::format::{eur, punctuated};

verus! {

/// One key-figure card: label, amount (highlighted when negative) and hint.
pub open spec fn kpi_text(label: Seq<char>, value: Decimal, hint: Seq<char>) -> Seq<char> {
    let text = punctuated(eur_text(value));
    "<div class=\"kpi\"><div class=\"label\">"@ + escape_html(label) + "</div><div class=\"value"@
        + (if text.len() > 0 && text[0] == '-' {
        " neg"@
    } else {
        ""@
    }) + "\">"@ + text + " €</div>\
         <div class=\"hint\">"@ + escape_html(hint) + "</div></div>\n"@
}

/// One key-figure card on the title page.
pub fn kpi(out: &mut String, label: &str, value: Decimal, hint: &str)
    requires
        eur_ok(value),
    ensures
        final(out)@ == old(out)@ + kpi_text(label@, value, hint@),
{
    let text = eur(value);
    let negative = text.as_str().unicode_len() > 0 && text.as_str().get_char(0) == '-';
    out.append("<div class=\"kpi\"><div class=\"label\">");
    out.append(escape(label).as_str());
    out.append("</div><div class=\"value");
    if negative {
        out.append(" neg");
    } else {
        out.append("");
    }
    out.append("\">");
    out.append(text.as_str());
    out.append(
        " €</div>\
         <div class=\"hint\">",
    );
    out.append(escape(hint).as_str());
    out.append("</div></div>\n");
    assert(out@ =~= old(out)@ + kpi_text(label@, value, hint@));
}

} // verus!
