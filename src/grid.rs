//! The operating state of the national power system, in words.

use vstd::prelude::*;

verus! {

/// The note that follows the electricity report for power system state
/// `state`: nothing in the normal state (1), a description otherwise.
pub open spec fn grid_state_spec(state: u64) -> Seq<char> {
    if state == 1 {
        ""@
    } else if state == 2 {
        " | Sähköjärjestelmän käyttötila: Sähköjärjestelmän käyttötilanne on heikentynyt. Sähkön riittävyys Suomessa on uhattuna (sähköpulan riski on suuri) tai voimajärjestelmä ei täytä käyttövarmuuskriteerejä"@
    } else if state == 3 {
        " | Sähköjärjestelmän käyttötila: Sähköjärjestelmän käyttövarmuus on vaarassa. Sähkönkulutusta on kytketty irti voimajärjestelmän käyttövarmuuden turvaamiseksi (sähköpula) tai riski laajaan sähkökatkoon on huomattava."@
    } else if state == 4 {
        " | Sähköjärjestelmän käyttötila: Vakava laajaa osaa tai koko Suomea kattava häiriö."@
    } else if state == 5 {
        " | Sähköjärjestelmän käyttötila: Vakavan häiriön käytönpalautus on menossa."@
    } else {
        " | Sähköjärjestelmän käyttötila: Tuntematon"@
    }
}

/// The note that follows the electricity report for power system state `state`.
pub fn grid_state_text(state: u64) -> (r: String)
    ensures
        r@ == grid_state_spec(state),
{
    if state == 1 {
        "".to_owned()
    } else if state == 2 {
        " | Sähköjärjestelmän käyttötila: Sähköjärjestelmän käyttötilanne on heikentynyt. Sähkön riittävyys Suomessa on uhattuna (sähköpulan riski on suuri) tai voimajärjestelmä ei täytä käyttövarmuuskriteerejä".to_owned()
    } else if state == 3 {
        " | Sähköjärjestelmän käyttötila: Sähköjärjestelmän käyttövarmuus on vaarassa. Sähkönkulutusta on kytketty irti voimajärjestelmän käyttövarmuuden turvaamiseksi (sähköpula) tai riski laajaan sähkökatkoon on huomattava.".to_owned()
    } else if state == 4 {
        " | Sähköjärjestelmän käyttötila: Vakava laajaa osaa tai koko Suomea kattava häiriö.".to_owned()
    } else if state == 5 {
        " | Sähköjärjestelmän käyttötila: Vakavan häiriön käytönpalautus on menossa.".to_owned()
    } else {
        " | Sähköjärjestelmän käyttötila: Tuntematon".to_owned()
    }
}

} // verus!
