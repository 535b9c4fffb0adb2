use vstd::prelude::*;
use crate::amount::Amount;
use crate::table::{Link, Ranked, Row, SortBy};
use crate::text::{coalesce, coalesce_opt, copy_text};

verus! {

/// The quantity on hand of one presentation of a supplied product in one
/// warehouse.
#[derive(Debug, Clone, PartialEq)]
pub struct StockAlmacen {
    pub id_stock: i32,
    pub id_prod_prov: i32,
    pub id_presentacion: i32,
    pub id_almacen: i32,
    pub stock_actual: Amount,
}

/// The fields of a new StockAlmacen; the key is assigned by the store.
#[derive(Debug, Clone, PartialEq)]
pub struct CreateStockAlmacen {
    pub id_prod_prov: i32,
    pub id_presentacion: i32,
    pub id_almacen: i32,
    pub stock_actual: Amount,
}

/// A partial update of a StockAlmacen: each field given replaces the stored
/// one, each field left out keeps it.
#[derive(Debug, Clone, PartialEq)]
pub struct UpdateStockAlmacen {
    pub id_prod_prov: Option<i32>,
    pub id_presentacion: Option<i32>,
    pub id_almacen: Option<i32>,
    pub stock_actual: Option<Amount>,
}

impl Row for StockAlmacen {
    open spec fn row_id(&self) -> int {
        self.id_stock as int
    }

    open spec fn points_to(&self, link: Link, id: int) -> bool {
        match link {
            Link::ProductoProveedor => self.id_prod_prov as int == id,
            Link::Presentacion => self.id_presentacion as int == id,
            Link::Almacen => self.id_almacen as int == id,
            _ => false,
        }
    }

    fn id(&self) -> (r: i32) {
        self.id_stock
    }

    fn duplicate(&self) -> (r: Self) {
        StockAlmacen {
            id_stock: self.id_stock,
            id_prod_prov: self.id_prod_prov,
            id_presentacion: self.id_presentacion,
            id_almacen: self.id_almacen,
            stock_actual: self.stock_actual,
        }
    }

    fn refers_to(&self, link: Link, id: i32) -> (r: bool) {
        match link {
            Link::ProductoProveedor => self.id_prod_prov == id,
            Link::Presentacion => self.id_presentacion == id,
            Link::Almacen => self.id_almacen == id,
            _ => false,
        }
    }
}

impl CreateStockAlmacen {
    /// `r` is the row stored for this input under key `id`: every field as
    /// given.
    pub open spec fn stores(self, id: int, r: StockAlmacen) -> bool {
        &&& r.id_stock as int == id
        &&& r.id_prod_prov == self.id_prod_prov
        &&& r.id_presentacion == self.id_presentacion
        &&& r.id_almacen == self.id_almacen
        &&& r.stock_actual == self.stock_actual
    }

    /// The row to store for this input under key `id`.
    pub fn into_row(self, id: i32) -> (r: StockAlmacen)
        ensures
            self.stores(id as int, r),
    {
        StockAlmacen {
            id_stock: id,
            id_prod_prov: self.id_prod_prov,
            id_presentacion: self.id_presentacion,
            id_almacen: self.id_almacen,
            stock_actual: self.stock_actual,
        }
    }
}

impl UpdateStockAlmacen {
    /// The row `old` after this update: the key kept, each given field
    /// replacing the old value.
    pub open spec fn merge(self, old: StockAlmacen) -> StockAlmacen {
        StockAlmacen {
            id_stock: old.id_stock,
            id_prod_prov: coalesce(self.id_prod_prov, old.id_prod_prov),
            id_presentacion: coalesce(self.id_presentacion, old.id_presentacion),
            id_almacen: coalesce(self.id_almacen, old.id_almacen),
            stock_actual: coalesce(self.stock_actual, old.stock_actual),
        }
    }

    /// Applies this update to `old`.
    pub fn apply(self, old: &StockAlmacen) -> (r: StockAlmacen)
        ensures
            r == self.merge(*old),
    {
        StockAlmacen {
            id_stock: old.id_stock,
            id_prod_prov: match self.id_prod_prov {
                Some(v) => v,
                None => old.id_prod_prov,
            },
            id_presentacion: match self.id_presentacion {
                Some(v) => v,
                None => old.id_presentacion,
            },
            id_almacen: match self.id_almacen {
                Some(v) => v,
                None => old.id_almacen,
            },
            stock_actual: match self.stock_actual {
                Some(v) => v,
                None => old.stock_actual,
            },
        }
    }
}

/// Three-way comparison of two keys: -1, 0 or 1.
pub open spec fn key_order(a: i32, b: i32) -> int {
    if a < b {
        -1
    } else if a > b {
        1
    } else {
        0
    }
}

impl StockAlmacen {
    /// The key that the column `by` holds: the warehouse for
    /// `SortBy::Almacen`, else the supplied product.
    pub open spec fn sort_key(&self, by: SortBy) -> i32 {
        match by {
            SortBy::Almacen => self.id_almacen,
            _ => self.id_prod_prov,
        }
    }
}

impl Ranked for StockAlmacen {
    open spec fn key_cmp(&self, other: &Self, by: SortBy) -> int {
        key_order(self.sort_key(by), other.sort_key(by))
    }

    fn compare_key(&self, other: &Self, by: SortBy) -> (c: i8) {
        let (a, b) = match by {
            SortBy::Almacen => (self.id_almacen, other.id_almacen),
            _ => (self.id_prod_prov, other.id_prod_prov),
        };
        if a < b {
            -1
        } else if a > b {
            1
        } else {
            0
        }
    }

    proof fn lemma_key_cmp_antisymmetric(a: &Self, b: &Self, by: SortBy) {
    }
}

} // verus!
