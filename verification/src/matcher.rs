//! Which of the listed ports may be the adapter.

use vstd::prelude::*;
use crate::descriptor::{Interface, InterfaceView, PortDescriptor, PortDescriptorView, views_of};
use crate::text::{contains_text, occurs_in, same_text};

verus! {

/// One of the two manufacturer strings under which the adapter reports itself.
pub const MANUFACTURER_0: &'static str = "wch.cn";

/// The other manufacturer string under which the adapter reports itself.
pub const MANUFACTURER_1: &'static str = "QinHeng Electronics";

/// What the product string of the adapter contains.
pub const PRODUCT: &'static str = "CH340";

/// `name` is, character for character, one of the two known manufacturer strings.
pub open spec fn is_known_manufacturer(name: Seq<char>) -> bool {
    name == MANUFACTURER_0@ || name == MANUFACTURER_1@
}

/// `name` contains the known product string.
pub open spec fn is_known_product(name: Seq<char>) -> bool {
    occurs_in(PRODUCT@, name)
}

/// The port is attached over USB and names, character for character, one of
/// the two known manufacturers. A manufacturer that is absent is not known.
pub open spec fn names_known_manufacturer(port: PortDescriptorView) -> bool {
    port.interface matches InterfaceView::Usb { manufacturer: Some(name), .. }
        && is_known_manufacturer(name)
}

/// The port is attached over USB and names a product that contains the known
/// product string. A product that is absent contains nothing.
pub open spec fn names_known_product(port: PortDescriptorView) -> bool {
    port.interface matches InterfaceView::Usb { product: Some(name), .. } && is_known_product(name)
}

/// The port may be the adapter: it is attached over USB, names a known
/// manufacturer and names a known product.
pub open spec fn is_candidate(port: PortDescriptorView) -> bool {
    &&& port.interface is Usb
    &&& names_known_manufacturer(port)
    &&& names_known_product(port)
}

/// Decides whether a listed port may be the adapter.
pub fn match_manufacturer_and_product(port_info: &PortDescriptor) -> (matched: bool)
    ensures
        matched == is_candidate(port_info@),
        // A port that is not attached over USB never matches.
        !(port_info@.interface is Usb) ==> !matched,
        // A known manufacturer with a known product always matches.
        names_known_manufacturer(port_info@) && names_known_product(port_info@) ==> matched,
        // An absent or unknown manufacturer never matches, whatever the product.
        !names_known_manufacturer(port_info@) ==> !matched,
{
    match &port_info.interface {
        Interface::Usb { manufacturer, product } => {
            let manufacturer_matched = match manufacturer {
                Some(name) => same_text(name.as_str(), MANUFACTURER_0) || same_text(
                    name.as_str(),
                    MANUFACTURER_1,
                ),
                None => false,
            };
            let product_matched = match product {
                Some(name) => contains_text(name.as_str(), PRODUCT),
                None => false,
            };
            manufacturer_matched && product_matched
        },
        _ => false,
    }
}

/// The ports of `ports` that may be the adapter, in the order of `ports`.
pub open spec fn candidate_set(ports: Seq<PortDescriptorView>) -> Seq<PortDescriptorView> {
    ports.filter(|port: PortDescriptorView| is_candidate(port))
}

/// Keeps the listed ports that may be the adapter, in the order in which they
/// were listed.
pub fn candidates(ports: Vec<PortDescriptor>) -> (kept: Vec<PortDescriptor>)
    ensures
        views_of(kept@) == candidate_set(views_of(ports@)),
        forall|i: int| 0 <= i < kept.len() ==> is_candidate(#[trigger] kept[i]@),
{
    let ghost listed = ports@;
    let mut kept: Vec<PortDescriptor> = Vec::new();
    for port in it: ports
        invariant
            it.seq() == listed,
            views_of(kept@) == candidate_set(views_of(listed.take(it.index() as int))),
            forall|i: int| 0 <= i < kept.len() ==> is_candidate(#[trigger] kept[i]@),
    {
        let ghost seen = listed.take(it.index() as int);
        proof {
            assert(listed.take(it.index() + 1) =~= seen.push(port));
            assert(views_of(seen.push(port)) =~= views_of(seen).push(port@));
            views_of(seen).lemma_filter_push(port@, |p: PortDescriptorView| is_candidate(p));
        }
        if match_manufacturer_and_product(&port) {
            kept.push(port);
        }
    }
    proof {
        assert(listed.take(listed.len() as int) =~= listed);
    }
    kept
}

} // verus!
