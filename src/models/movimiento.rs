use vstd::prelude::*;
use crate::amount::Amount;
use crate::table::{Link, Ranked, Row, SortBy};
use crate::text::{compare_text, lemma_text_cmp_antisymmetric, text_cmp, coalesce, coalesce_opt, copy_text};

verus! {

/// A ledger entry of an inventory event, optionally tied to an invoice.
#[derive(Debug, Clone, PartialEq)]
pub struct Movimiento {
    pub id_movimiento: i32,
    pub fecha: String,
    pub tipo: String,
    pub subtipo: Option<String>,
    pub id_prod_prov: i32,
    pub id_presentacion: i32,
    pub cantidad: Amount,
    pub precio_unit: Option<Amount>,
    pub monto_total: Option<Amount>,
    pub lote: Option<String>,
    pub fecha_venc: Option<String>,
    pub obs: Option<String>,
    pub id_factura: Option<i32>,
}

/// The fields of a new Movimiento; the key is assigned by the store.
#[derive(Debug, Clone, PartialEq)]
pub struct CreateMovimiento {
    pub fecha: String,
    pub tipo: String,
    pub subtipo: Option<String>,
    pub id_prod_prov: i32,
    pub id_presentacion: i32,
    pub cantidad: Amount,
    pub precio_unit: Option<Amount>,
    pub monto_total: Option<Amount>,
    pub lote: Option<String>,
    pub fecha_venc: Option<String>,
    pub obs: Option<String>,
    pub id_factura: Option<i32>,
}

/// A partial update of a Movimiento: each field given replaces the stored one,
/// each field left out keeps it.
#[derive(Debug, Clone, PartialEq)]
pub struct UpdateMovimiento {
    pub fecha: Option<String>,
    pub tipo: Option<String>,
    pub subtipo: Option<String>,
    pub id_prod_prov: Option<i32>,
    pub id_presentacion: Option<i32>,
    pub cantidad: Option<Amount>,
    pub precio_unit: Option<Amount>,
    pub monto_total: Option<Amount>,
    pub lote: Option<String>,
    pub fecha_venc: Option<String>,
    pub obs: Option<String>,
    pub id_factura: Option<i32>,
}

impl Row for Movimiento {
    open spec fn row_id(&self) -> int {
        self.id_movimiento as int
    }

    open spec fn points_to(&self, link: Link, id: int) -> bool {
        match link {
            Link::ProductoProveedor => self.id_prod_prov as int == id,
            Link::Presentacion => self.id_presentacion as int == id,
            Link::Factura => self.id_factura matches Some(k) && k as int == id,
            _ => false,
        }
    }

    fn id(&self) -> (r: i32) {
        self.id_movimiento
    }

    fn duplicate(&self) -> (r: Self) {
        Movimiento {
            id_movimiento: self.id_movimiento,
            fecha: self.fecha.clone(),
            tipo: self.tipo.clone(),
            subtipo: copy_text(&self.subtipo),
            id_prod_prov: self.id_prod_prov,
            id_presentacion: self.id_presentacion,
            cantidad: self.cantidad,
            precio_unit: self.precio_unit,
            monto_total: self.monto_total,
            lote: copy_text(&self.lote),
            fecha_venc: copy_text(&self.fecha_venc),
            obs: copy_text(&self.obs),
            id_factura: self.id_factura,
        }
    }

    fn refers_to(&self, link: Link, id: i32) -> (r: bool) {
        match link {
            Link::ProductoProveedor => self.id_prod_prov == id,
            Link::Presentacion => self.id_presentacion == id,
            Link::Factura => match self.id_factura {
                Some(k) => k == id,
                None => false,
            },
            _ => false,
        }
    }
}

impl CreateMovimiento {
    /// `r` is the row stored for this input under key `id`: every field as
    /// given.
    pub open spec fn stores(self, id: int, r: Movimiento) -> bool {
        &&& r.id_movimiento as int == id
        &&& r.fecha == self.fecha
        &&& r.tipo == self.tipo
        &&& r.subtipo == self.subtipo
        &&& r.id_prod_prov == self.id_prod_prov
        &&& r.id_presentacion == self.id_presentacion
        &&& r.cantidad == self.cantidad
        &&& r.precio_unit == self.precio_unit
        &&& r.monto_total == self.monto_total
        &&& r.lote == self.lote
        &&& r.fecha_venc == self.fecha_venc
        &&& r.obs == self.obs
        &&& r.id_factura == self.id_factura
    }

    /// The row to store for this input under key `id`.
    pub fn into_row(self, id: i32) -> (r: Movimiento)
        ensures
            self.stores(id as int, r),
    {
        Movimiento {
            id_movimiento: id,
            fecha: self.fecha,
            tipo: self.tipo,
            subtipo: self.subtipo,
            id_prod_prov: self.id_prod_prov,
            id_presentacion: self.id_presentacion,
            cantidad: self.cantidad,
            precio_unit: self.precio_unit,
            monto_total: self.monto_total,
            lote: self.lote,
            fecha_venc: self.fecha_venc,
            obs: self.obs,
            id_factura: self.id_factura,
        }
    }
}

impl UpdateMovimiento {
    /// The row `old` after this update: the key kept, each given field
    /// replacing the old value.
    pub open spec fn merge(self, old: Movimiento) -> Movimiento {
        Movimiento {
            id_movimiento: old.id_movimiento,
            fecha: coalesce(self.fecha, old.fecha),
            tipo: coalesce(self.tipo, old.tipo),
            subtipo: coalesce_opt(self.subtipo, old.subtipo),
            id_prod_prov: coalesce(self.id_prod_prov, old.id_prod_prov),
            id_presentacion: coalesce(self.id_presentacion, old.id_presentacion),
            cantidad: coalesce(self.cantidad, old.cantidad),
            precio_unit: coalesce_opt(self.precio_unit, old.precio_unit),
            monto_total: coalesce_opt(self.monto_total, old.monto_total),
            lote: coalesce_opt(self.lote, old.lote),
            fecha_venc: coalesce_opt(self.fecha_venc, old.fecha_venc),
            obs: coalesce_opt(self.obs, old.obs),
            id_factura: coalesce_opt(self.id_factura, old.id_factura),
        }
    }

    /// Applies this update to `old`.
    pub fn apply(self, old: &Movimiento) -> (r: Movimiento)
        ensures
            r == self.merge(*old),
    {
        Movimiento {
            id_movimiento: old.id_movimiento,
            fecha: match self.fecha {
                Some(v) => v,
                None => old.fecha.clone(),
            },
            tipo: match self.tipo {
                Some(v) => v,
                None => old.tipo.clone(),
            },
            subtipo: match self.subtipo {
                Some(v) => Some(v),
                None => copy_text(&old.subtipo),
            },
            id_prod_prov: match self.id_prod_prov {
                Some(v) => v,
                None => old.id_prod_prov,
            },
            id_presentacion: match self.id_presentacion {
                Some(v) => v,
                None => old.id_presentacion,
            },
            cantidad: match self.cantidad {
                Some(v) => v,
                None => old.cantidad,
            },
            precio_unit: match self.precio_unit {
                Some(v) => Some(v),
                None => old.precio_unit,
            },
            monto_total: match self.monto_total {
                Some(v) => Some(v),
                None => old.monto_total,
            },
            lote: match self.lote {
                Some(v) => Some(v),
                None => copy_text(&old.lote),
            },
            fecha_venc: match self.fecha_venc {
                Some(v) => Some(v),
                None => copy_text(&old.fecha_venc),
            },
            obs: match self.obs {
                Some(v) => Some(v),
                None => copy_text(&old.obs),
            },
            id_factura: match self.id_factura {
                Some(v) => Some(v),
                None => old.id_factura,
            },
        }
    }
}

impl Ranked for Movimiento {
    /// Rows are ranked by date, compared as text.
    open spec fn key_cmp(&self, other: &Self, by: SortBy) -> int {
        text_cmp(self.fecha@, other.fecha@)
    }

    fn compare_key(&self, other: &Self, by: SortBy) -> (c: i8) {
        compare_text(self.fecha.as_str(), other.fecha.as_str())
    }

    proof fn lemma_key_cmp_antisymmetric(a: &Self, b: &Self, by: SortBy) {
        lemma_text_cmp_antisymmetric(a.fecha@, b.fecha@);
    }
}

} // verus!
