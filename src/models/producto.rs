use vstd::prelude::*;
use crate::table::{Link, Row};
use crate::text::{coalesce, coalesce_opt, copy_text, status_or_default, with_default_status};

verus! {

/// A product of the catalogue; its internal code is unique.
#[derive(Debug, Clone, PartialEq)]
pub struct Producto {
    pub id_producto: i32,
    pub codigo_interno: String,
    pub descripcion: String,
    pub categoria: Option<String>,
    pub subcategoria: Option<String>,
    pub estado: Option<String>,
}

/// The fields of a new Producto; the key is assigned by the store.
#[derive(Debug, Clone, PartialEq)]
pub struct CreateProducto {
    pub codigo_interno: String,
    pub descripcion: String,
    pub categoria: Option<String>,
    pub subcategoria: Option<String>,
    pub estado: Option<String>,
}

/// A partial update of a Producto: each field given replaces the stored one,
/// each field left out keeps it.
#[derive(Debug, Clone, PartialEq)]
pub struct UpdateProducto {
    pub codigo_interno: Option<String>,
    pub descripcion: Option<String>,
    pub categoria: Option<String>,
    pub subcategoria: Option<String>,
    pub estado: Option<String>,
}

impl Row for Producto {
    open spec fn row_id(&self) -> int {
        self.id_producto as int
    }

    open spec fn points_to(&self, link: Link, id: int) -> bool {
        false
    }

    fn id(&self) -> (r: i32) {
        self.id_producto
    }

    fn duplicate(&self) -> (r: Self) {
        Producto {
            id_producto: self.id_producto,
            codigo_interno: self.codigo_interno.clone(),
            descripcion: self.descripcion.clone(),
            categoria: copy_text(&self.categoria),
            subcategoria: copy_text(&self.subcategoria),
            estado: copy_text(&self.estado),
        }
    }

    fn refers_to(&self, link: Link, id: i32) -> (r: bool) {
        false
    }
}

impl CreateProducto {
    /// `r` is the row stored for this input under key `id`: every field as
    /// given, the status defaulting when left out.
    pub open spec fn stores(self, id: int, r: Producto) -> bool {
        &&& r.id_producto as int == id
        &&& r.codigo_interno == self.codigo_interno
        &&& r.descripcion == self.descripcion
        &&& r.categoria == self.categoria
        &&& r.subcategoria == self.subcategoria
        &&& status_or_default(self.estado, r.estado)
    }

    /// The row to store for this input under key `id`.
    pub fn into_row(self, id: i32) -> (r: Producto)
        ensures
            self.stores(id as int, r),
    {
        Producto {
            id_producto: id,
            codigo_interno: self.codigo_interno,
            descripcion: self.descripcion,
            categoria: self.categoria,
            subcategoria: self.subcategoria,
            estado: with_default_status(self.estado),
        }
    }
}

impl UpdateProducto {
    /// The row `old` after this update: the key kept, each given field
    /// replacing the old value.
    pub open spec fn merge(self, old: Producto) -> Producto {
        Producto {
            id_producto: old.id_producto,
            codigo_interno: coalesce(self.codigo_interno, old.codigo_interno),
            descripcion: coalesce(self.descripcion, old.descripcion),
            categoria: coalesce_opt(self.categoria, old.categoria),
            subcategoria: coalesce_opt(self.subcategoria, old.subcategoria),
            estado: coalesce_opt(self.estado, old.estado),
        }
    }

    /// Applies this update to `old`.
    pub fn apply(self, old: &Producto) -> (r: Producto)
        ensures
            r == self.merge(*old),
    {
        Producto {
            id_producto: old.id_producto,
            codigo_interno: match self.codigo_interno {
                Some(v) => v,
                None => old.codigo_interno.clone(),
            },
            descripcion: match self.descripcion {
                Some(v) => v,
                None => old.descripcion.clone(),
            },
            categoria: match self.categoria {
                Some(v) => Some(v),
                None => copy_text(&old.categoria),
            },
            subcategoria: match self.subcategoria {
                Some(v) => Some(v),
                None => copy_text(&old.subcategoria),
            },
            estado: match self.estado {
                Some(v) => Some(v),
                None => copy_text(&old.estado),
            },
        }
    }
}

} // verus!
