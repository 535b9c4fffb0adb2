use vstd::prelude::*;
use crate::amount::Amount;
use crate::table::{Link, Row};
use crate::text::{coalesce, coalesce_opt, copy_text};

verus! {

/// A packaging or unit variant of a product.
#[derive(Debug, Clone, PartialEq)]
pub struct Presentacion {
    pub id_presentacion: i32,
    pub id_producto: i32,
    pub unidad: String,
    pub cantidad: Amount,
    pub descripcion: Option<String>,
}

/// The fields of a new Presentacion; the key is assigned by the store.
#[derive(Debug, Clone, PartialEq)]
pub struct CreatePresentacion {
    pub id_producto: i32,
    pub unidad: String,
    pub cantidad: Amount,
    pub descripcion: Option<String>,
}

/// A partial update of a Presentacion: each field given replaces the stored
/// one, each field left out keeps it.
#[derive(Debug, Clone, PartialEq)]
pub struct UpdatePresentacion {
    pub id_producto: Option<i32>,
    pub unidad: Option<String>,
    pub cantidad: Option<Amount>,
    pub descripcion: Option<String>,
}

impl Row for Presentacion {
    open spec fn row_id(&self) -> int {
        self.id_presentacion as int
    }

    open spec fn points_to(&self, link: Link, id: int) -> bool {
        match link {
            Link::Producto => self.id_producto as int == id,
            _ => false,
        }
    }

    fn id(&self) -> (r: i32) {
        self.id_presentacion
    }

    fn duplicate(&self) -> (r: Self) {
        Presentacion {
            id_presentacion: self.id_presentacion,
            id_producto: self.id_producto,
            unidad: self.unidad.clone(),
            cantidad: self.cantidad,
            descripcion: copy_text(&self.descripcion),
        }
    }

    fn refers_to(&self, link: Link, id: i32) -> (r: bool) {
        match link {
            Link::Producto => self.id_producto == id,
            _ => false,
        }
    }
}

impl CreatePresentacion {
    /// `r` is the row stored for this input under key `id`: every field as
    /// given.
    pub open spec fn stores(self, id: int, r: Presentacion) -> bool {
        &&& r.id_presentacion as int == id
        &&& r.id_producto == self.id_producto
        &&& r.unidad == self.unidad
        &&& r.cantidad == self.cantidad
        &&& r.descripcion == self.descripcion
    }

    /// The row to store for this input under key `id`.
    pub fn into_row(self, id: i32) -> (r: Presentacion)
        ensures
            self.stores(id as int, r),
    {
        Presentacion {
            id_presentacion: id,
            id_producto: self.id_producto,
            unidad: self.unidad,
            cantidad: self.cantidad,
            descripcion: self.descripcion,
        }
    }
}

impl UpdatePresentacion {
    /// The row `old` after this update: the key kept, each given field
    /// replacing the old value.
    pub open spec fn merge(self, old: Presentacion) -> Presentacion {
        Presentacion {
            id_presentacion: old.id_presentacion,
            id_producto: coalesce(self.id_producto, old.id_producto),
            unidad: coalesce(self.unidad, old.unidad),
            cantidad: coalesce(self.cantidad, old.cantidad),
            descripcion: coalesce_opt(self.descripcion, old.descripcion),
        }
    }

    /// Applies this update to `old`.
    pub fn apply(self, old: &Presentacion) -> (r: Presentacion)
        ensures
            r == self.merge(*old),
    {
        Presentacion {
            id_presentacion: old.id_presentacion,
            id_producto: match self.id_producto {
                Some(v) => v,
                None => old.id_producto,
            },
            unidad: match self.unidad {
                Some(v) => v,
                None => old.unidad.clone(),
            },
            cantidad: match self.cantidad {
                Some(v) => v,
                None => old.cantidad,
            },
            descripcion: match self.descripcion {
                Some(v) => Some(v),
                None => copy_text(&old.descripcion),
            },
        }
    }
}

} // verus!
