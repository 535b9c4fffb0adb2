use vstd::prelude::*;
use crate::table::{Link, Row};
use crate::text::{coalesce, coalesce_opt, copy_text, status_or_default, with_default_status};

verus! {

/// The link recording that a supplier sells a product under its own code.
#[derive(Debug, Clone, PartialEq)]
pub struct ProductoProveedor {
    pub id_prod_prov: i32,
    pub id_producto: i32,
    pub id_proveedor: i32,
    pub codigo_proveedor: String,
    pub estado: Option<String>,
}

/// The fields of a new ProductoProveedor; the key is assigned by the store.
#[derive(Debug, Clone, PartialEq)]
pub struct CreateProductoProveedor {
    pub id_producto: i32,
    pub id_proveedor: i32,
    pub codigo_proveedor: String,
    pub estado: Option<String>,
}

/// A partial update of a ProductoProveedor: each field given replaces the
/// stored one, each field left out keeps it.
#[derive(Debug, Clone, PartialEq)]
pub struct UpdateProductoProveedor {
    pub id_producto: Option<i32>,
    pub id_proveedor: Option<i32>,
    pub codigo_proveedor: Option<String>,
    pub estado: Option<String>,
}

impl Row for ProductoProveedor {
    open spec fn row_id(&self) -> int {
        self.id_prod_prov as int
    }

    open spec fn points_to(&self, link: Link, id: int) -> bool {
        match link {
            Link::Producto => self.id_producto as int == id,
            Link::Proveedor => self.id_proveedor as int == id,
            _ => false,
        }
    }

    fn id(&self) -> (r: i32) {
        self.id_prod_prov
    }

    fn duplicate(&self) -> (r: Self) {
        ProductoProveedor {
            id_prod_prov: self.id_prod_prov,
            id_producto: self.id_producto,
            id_proveedor: self.id_proveedor,
            codigo_proveedor: self.codigo_proveedor.clone(),
            estado: copy_text(&self.estado),
        }
    }

    fn refers_to(&self, link: Link, id: i32) -> (r: bool) {
        match link {
            Link::Producto => self.id_producto == id,
            Link::Proveedor => self.id_proveedor == id,
            _ => false,
        }
    }
}

impl CreateProductoProveedor {
    /// `r` is the row stored for this input under key `id`: every field as
    /// given, the status defaulting when left out.
    pub open spec fn stores(self, id: int, r: ProductoProveedor) -> bool {
        &&& r.id_prod_prov as int == id
        &&& r.id_producto == self.id_producto
        &&& r.id_proveedor == self.id_proveedor
        &&& r.codigo_proveedor == self.codigo_proveedor
        &&& status_or_default(self.estado, r.estado)
    }

    /// The row to store for this input under key `id`.
    pub fn into_row(self, id: i32) -> (r: ProductoProveedor)
        ensures
            self.stores(id as int, r),
    {
        ProductoProveedor {
            id_prod_prov: id,
            id_producto: self.id_producto,
            id_proveedor: self.id_proveedor,
            codigo_proveedor: self.codigo_proveedor,
            estado: with_default_status(self.estado),
        }
    }
}

impl UpdateProductoProveedor {
    /// The row `old` after this update: the key kept, each given field
    /// replacing the old value.
    pub open spec fn merge(self, old: ProductoProveedor) -> ProductoProveedor {
        ProductoProveedor {
            id_prod_prov: old.id_prod_prov,
            id_producto: coalesce(self.id_producto, old.id_producto),
            id_proveedor: coalesce(self.id_proveedor, old.id_proveedor),
            codigo_proveedor: coalesce(self.codigo_proveedor, old.codigo_proveedor),
            estado: coalesce_opt(self.estado, old.estado),
        }
    }

    /// Applies this update to `old`.
    pub fn apply(self, old: &ProductoProveedor) -> (r: ProductoProveedor)
        ensures
            r == self.merge(*old),
    {
        ProductoProveedor {
            id_prod_prov: old.id_prod_prov,
            id_producto: match self.id_producto {
                Some(v) => v,
                None => old.id_producto,
            },
            id_proveedor: match self.id_proveedor {
                Some(v) => v,
                None => old.id_proveedor,
            },
            codigo_proveedor: match self.codigo_proveedor {
                Some(v) => v,
                None => old.codigo_proveedor.clone(),
            },
            estado: match self.estado {
                Some(v) => Some(v),
                None => copy_text(&old.estado),
            },
        }
    }
}

} // verus!
