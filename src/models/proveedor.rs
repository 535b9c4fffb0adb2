use vstd::prelude::*;
use crate::table::{Link, Row};
use crate::text::{coalesce, coalesce_opt, copy_text, status_or_default, with_default_status};

verus! {

/// A supplier; its tax id is unique.
#[derive(Debug, Clone, PartialEq)]
pub struct Proveedor {
    pub id_proveedor: i32,
    pub ruc_ci: String,
    pub nombre: String,
    pub contacto: Option<String>,
    pub telefono: Option<String>,
    pub email: Option<String>,
    pub estado: Option<String>,
}

/// The fields of a new Proveedor; the key is assigned by the store.
#[derive(Debug, Clone, PartialEq)]
pub struct CreateProveedor {
    pub ruc_ci: String,
    pub nombre: String,
    pub contacto: Option<String>,
    pub telefono: Option<String>,
    pub email: Option<String>,
    pub estado: Option<String>,
}

/// A partial update of a Proveedor: each field given replaces the stored one,
/// each field left out keeps it.
#[derive(Debug, Clone, PartialEq)]
pub struct UpdateProveedor {
    pub ruc_ci: Option<String>,
    pub nombre: Option<String>,
    pub contacto: Option<String>,
    pub telefono: Option<String>,
    pub email: Option<String>,
    pub estado: Option<String>,
}

impl Row for Proveedor {
    open spec fn row_id(&self) -> int {
        self.id_proveedor as int
    }

    open spec fn points_to(&self, link: Link, id: int) -> bool {
        false
    }

    fn id(&self) -> (r: i32) {
        self.id_proveedor
    }

    fn duplicate(&self) -> (r: Self) {
        Proveedor {
            id_proveedor: self.id_proveedor,
            ruc_ci: self.ruc_ci.clone(),
            nombre: self.nombre.clone(),
            contacto: copy_text(&self.contacto),
            telefono: copy_text(&self.telefono),
            email: copy_text(&self.email),
            estado: copy_text(&self.estado),
        }
    }

    fn refers_to(&self, link: Link, id: i32) -> (r: bool) {
        false
    }
}

impl CreateProveedor {
    /// `r` is the row stored for this input under key `id`: every field as
    /// given, the status defaulting when left out.
    pub open spec fn stores(self, id: int, r: Proveedor) -> bool {
        &&& r.id_proveedor as int == id
        &&& r.ruc_ci == self.ruc_ci
        &&& r.nombre == self.nombre
        &&& r.contacto == self.contacto
        &&& r.telefono == self.telefono
        &&& r.email == self.email
        &&& status_or_default(self.estado, r.estado)
    }

    /// The row to store for this input under key `id`.
    pub fn into_row(self, id: i32) -> (r: Proveedor)
        ensures
            self.stores(id as int, r),
    {
        Proveedor {
            id_proveedor: id,
            ruc_ci: self.ruc_ci,
            nombre: self.nombre,
            contacto: self.contacto,
            telefono: self.telefono,
            email: self.email,
            estado: with_default_status(self.estado),
        }
    }
}

impl UpdateProveedor {
    /// The row `old` after this update: the key kept, each given field
    /// replacing the old value.
    pub open spec fn merge(self, old: Proveedor) -> Proveedor {
        Proveedor {
            id_proveedor: old.id_proveedor,
            ruc_ci: coalesce(self.ruc_ci, old.ruc_ci),
            nombre: coalesce(self.nombre, old.nombre),
            contacto: coalesce_opt(self.contacto, old.contacto),
            telefono: coalesce_opt(self.telefono, old.telefono),
            email: coalesce_opt(self.email, old.email),
            estado: coalesce_opt(self.estado, old.estado),
        }
    }

    /// Applies this update to `old`.
    pub fn apply(self, old: &Proveedor) -> (r: Proveedor)
        ensures
            r == self.merge(*old),
    {
        Proveedor {
            id_proveedor: old.id_proveedor,
            ruc_ci: match self.ruc_ci {
                Some(v) => v,
                None => old.ruc_ci.clone(),
            },
            nombre: match self.nombre {
                Some(v) => v,
                None => old.nombre.clone(),
            },
            contacto: match self.contacto {
                Some(v) => Some(v),
                None => copy_text(&old.contacto),
            },
            telefono: match self.telefono {
                Some(v) => Some(v),
                None => copy_text(&old.telefono),
            },
            email: match self.email {
                Some(v) => Some(v),
                None => copy_text(&old.email),
            },
            estado: match self.estado {
                Some(v) => Some(v),
                None => copy_text(&old.estado),
            },
        }
    }
}

} // verus!
