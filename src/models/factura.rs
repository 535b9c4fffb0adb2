use vstd::prelude::*;
use crate::amount::Amount;
use crate::table::{Link, Ranked, Row, SortBy};
use crate::text::{compare_text, lemma_text_cmp_antisymmetric, text_cmp, coalesce, coalesce_opt, copy_text, status_or_default, with_default_status};

verus! {

/// A supplier's invoice.
#[derive(Debug, Clone, PartialEq)]
pub struct Factura {
    pub id_factura: i32,
    pub numero: String,
    pub fecha: String,
    pub id_proveedor: i32,
    pub total: Option<Amount>,
    pub estado: Option<String>,
}

/// The fields of a new Factura; the key is assigned by the store.
#[derive(Debug, Clone, PartialEq)]
pub struct FacturaInput {
    pub numero: String,
    pub fecha: String,
    pub id_proveedor: i32,
    pub total: Option<Amount>,
    pub estado: Option<String>,
}

/// A partial update of a Factura: each field given replaces the stored one,
/// each field left out keeps it.
#[derive(Debug, Clone, PartialEq)]
pub struct FacturaUpdate {
    pub numero: Option<String>,
    pub fecha: Option<String>,
    pub id_proveedor: Option<i32>,
    pub total: Option<Amount>,
    pub estado: Option<String>,
}

impl Row for Factura {
    open spec fn row_id(&self) -> int {
        self.id_factura as int
    }

    open spec fn points_to(&self, link: Link, id: int) -> bool {
        match link {
            Link::Proveedor => self.id_proveedor as int == id,
            _ => false,
        }
    }

    fn id(&self) -> (r: i32) {
        self.id_factura
    }

    fn duplicate(&self) -> (r: Self) {
        Factura {
            id_factura: self.id_factura,
            numero: self.numero.clone(),
            fecha: self.fecha.clone(),
            id_proveedor: self.id_proveedor,
            total: self.total,
            estado: copy_text(&self.estado),
        }
    }

    fn refers_to(&self, link: Link, id: i32) -> (r: bool) {
        match link {
            Link::Proveedor => self.id_proveedor == id,
            _ => false,
        }
    }
}

impl FacturaInput {
    /// `r` is the row stored for this input under key `id`: every field as
    /// given, the status defaulting when left out.
    pub open spec fn stores(self, id: int, r: Factura) -> bool {
        &&& r.id_factura as int == id
        &&& r.numero == self.numero
        &&& r.fecha == self.fecha
        &&& r.id_proveedor == self.id_proveedor
        &&& r.total == self.total
        &&& status_or_default(self.estado, r.estado)
    }

    /// The row to store for this input under key `id`.
    pub fn into_row(self, id: i32) -> (r: Factura)
        ensures
            self.stores(id as int, r),
    {
        Factura {
            id_factura: id,
            numero: self.numero,
            fecha: self.fecha,
            id_proveedor: self.id_proveedor,
            total: self.total,
            estado: with_default_status(self.estado),
        }
    }
}

impl FacturaUpdate {
    /// The row `old` after this update: the key kept, each given field
    /// replacing the old value.
    pub open spec fn merge(self, old: Factura) -> Factura {
        Factura {
            id_factura: old.id_factura,
            numero: coalesce(self.numero, old.numero),
            fecha: coalesce(self.fecha, old.fecha),
            id_proveedor: coalesce(self.id_proveedor, old.id_proveedor),
            total: coalesce_opt(self.total, old.total),
            estado: coalesce_opt(self.estado, old.estado),
        }
    }

    /// Applies this update to `old`.
    pub fn apply(self, old: &Factura) -> (r: Factura)
        ensures
            r == self.merge(*old),
    {
        Factura {
            id_factura: old.id_factura,
            numero: match self.numero {
                Some(v) => v,
                None => old.numero.clone(),
            },
            fecha: match self.fecha {
                Some(v) => v,
                None => old.fecha.clone(),
            },
            id_proveedor: match self.id_proveedor {
                Some(v) => v,
                None => old.id_proveedor,
            },
            total: match self.total {
                Some(v) => Some(v),
                None => old.total,
            },
            estado: match self.estado {
                Some(v) => Some(v),
                None => copy_text(&old.estado),
            },
        }
    }
}

impl Ranked for Factura {
    /// Rows are ranked by date, compared as text.
    open spec fn key_cmp(&self, other: &Self, by: SortBy) -> int {
        text_cmp(self.fecha@, other.fecha@)
    }

    fn compare_key(&self, other: &Self, by: SortBy) -> (c: i8) {
        compare_text(self.fecha.as_str(), other.fecha.as_str())
    }

    proof fn lemma_key_cmp_antisymmetric(a: &Self, b: &Self, by: SortBy) {
        lemma_text_cmp_antisymmetric(a.fecha@, b.fecha@);
    }
}

impl Default for FacturaUpdate {
    /// The update that changes nothing.
    fn default() -> (r: FacturaUpdate)
        ensures
            r.numero is None && r.fecha is None && r.id_proveedor is None && r.total is None && r.estado is None,
    {
        FacturaUpdate { numero: None, fecha: None, id_proveedor: None, total: None, estado: None }
    }
}

} // verus!
