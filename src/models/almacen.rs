use vstd::prelude::*;
use crate::table::{Link, Row};
use crate::text::{coalesce, coalesce_opt, copy_text};

verus! {

/// A warehouse.
#[derive(Debug, Clone, PartialEq)]
pub struct Almacen {
    pub id_almacen: i32,
    pub nombre: String,
    pub ubicacion: Option<String>,
    pub responsable: Option<String>,
}

/// The fields of a new Almacen; the key is assigned by the store.
#[derive(Debug, Clone, PartialEq)]
pub struct CreateAlmacen {
    pub nombre: String,
    pub ubicacion: Option<String>,
    pub responsable: Option<String>,
}

/// A partial update of a Almacen: each field given replaces the stored one,
/// each field left out keeps it.
#[derive(Debug, Clone, PartialEq)]
pub struct UpdateAlmacen {
    pub nombre: Option<String>,
    pub ubicacion: Option<String>,
    pub responsable: Option<String>,
}

impl Row for Almacen {
    open spec fn row_id(&self) -> int {
        self.id_almacen as int
    }

    open spec fn points_to(&self, link: Link, id: int) -> bool {
        false
    }

    fn id(&self) -> (r: i32) {
        self.id_almacen
    }

    fn duplicate(&self) -> (r: Self) {
        Almacen {
            id_almacen: self.id_almacen,
            nombre: self.nombre.clone(),
            ubicacion: copy_text(&self.ubicacion),
            responsable: copy_text(&self.responsable),
        }
    }

    fn refers_to(&self, link: Link, id: i32) -> (r: bool) {
        false
    }
}

impl CreateAlmacen {
    /// `r` is the row stored for this input under key `id`: every field as
    /// given.
    pub open spec fn stores(self, id: int, r: Almacen) -> bool {
        &&& r.id_almacen as int == id
        &&& r.nombre == self.nombre
        &&& r.ubicacion == self.ubicacion
        &&& r.responsable == self.responsable
    }

    /// The row to store for this input under key `id`.
    pub fn into_row(self, id: i32) -> (r: Almacen)
        ensures
            self.stores(id as int, r),
    {
        Almacen {
            id_almacen: id,
            nombre: self.nombre,
            ubicacion: self.ubicacion,
            responsable: self.responsable,
        }
    }
}

impl UpdateAlmacen {
    /// The row `old` after this update: the key kept, each given field
    /// replacing the old value.
    pub open spec fn merge(self, old: Almacen) -> Almacen {
        Almacen {
            id_almacen: old.id_almacen,
            nombre: coalesce(self.nombre, old.nombre),
            ubicacion: coalesce_opt(self.ubicacion, old.ubicacion),
            responsable: coalesce_opt(self.responsable, old.responsable),
        }
    }

    /// Applies this update to `old`.
    pub fn apply(self, old: &Almacen) -> (r: Almacen)
        ensures
            r == self.merge(*old),
    {
        Almacen {
            id_almacen: old.id_almacen,
            nombre: match self.nombre {
                Some(v) => v,
                None => old.nombre.clone(),
            },
            ubicacion: match self.ubicacion {
                Some(v) => Some(v),
                None => copy_text(&old.ubicacion),
            },
            responsable: match self.responsable {
                Some(v) => Some(v),
                None => copy_text(&old.responsable),
            },
        }
    }
}

} // verus!
