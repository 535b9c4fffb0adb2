use vstd::prelude::*;
use crate::amount::Amount;
use crate::models::{Producto, StockAlmacen};
use crate::store::{Inventory, InventoryView, StoreError, list_gives};
use crate::table::{Row, lemma_filter_keeps_key_order};

verus! {

/// The quantity, in thousandths of a unit, below which a stock record counts
/// as low: 10 units.
pub const LOW_STOCK_THRESHOLD_THOUSANDTHS: i64 = 10000;

/// One stock record without its key: what is on hand of a presentation of a
/// supplied product in a warehouse.
#[derive(Debug, Clone, Copy, PartialEq, Eq, Structural)]
pub struct StockActual {
    pub id_prod_prov: i32,
    pub id_presentacion: i32,
    pub id_almacen: i32,
    pub stock_actual: Amount,
}

/// The snapshot entry of the stock record `r`.
pub open spec fn snapshot_of(r: StockAlmacen) -> StockActual {
    StockActual {
        id_prod_prov: r.id_prod_prov,
        id_presentacion: r.id_presentacion,
        id_almacen: r.id_almacen,
        stock_actual: r.stock_actual,
    }
}

/// The snapshot of every stock record, in key order.
pub open spec fn snapshot(s: InventoryView) -> Seq<StockActual> {
    s.stock.rows.map_values(|r: StockAlmacen| snapshot_of(r))
}

/// Whether some stock record of the supplied product of key `prod_prov_id`
/// holds less than `threshold`.
pub open spec fn supply_low(s: InventoryView, prod_prov_id: int, threshold: Amount) -> bool {
    exists|j: int|
        0 <= j < s.stock.rows.len() && #[trigger] s.stock.rows[j].id_prod_prov as int == prod_prov_id
            && s.stock.rows[j].stock_actual.thousandths < threshold.thousandths
}

/// Whether the product of key `product_id` has, through one of its suppliers,
/// a stock record holding less than `threshold`.
pub open spec fn product_low(s: InventoryView, product_id: int, threshold: Amount) -> bool {
    exists|i: int|
        0 <= i < s.productos_proveedores.rows.len() && #[trigger] s.productos_proveedores.rows[i].id_producto as int
            == product_id && supply_low(s, s.productos_proveedores.rows[i].id_prod_prov as int, threshold)
}

/// The products low on stock, each once, in key order.
pub open spec fn low_stock(s: InventoryView, threshold: Amount) -> Seq<Producto> {
    s.productos.rows.filter(|p: Producto| product_low(s, p.id_producto as int, threshold))
}

fn supply_is_low(store: &Inventory, prod_prov_id: i32, threshold: Amount) -> (r: bool)
    ensures
        r == supply_low(store@, prod_prov_id as int, threshold),
{
    let mut j: usize = 0;
    while j < store.stock.len()
        invariant
            j <= store@.stock.rows.len(),
            forall|k: int|
                0 <= k < j ==> !(#[trigger] store@.stock.rows[k].id_prod_prov as int == prod_prov_id as int
                    && store@.stock.rows[k].stock_actual.thousandths < threshold.thousandths),
        decreases store@.stock.rows.len() - j,
    {
        let s = store.stock.at(j);
        if s.id_prod_prov == prod_prov_id && s.stock_actual.is_below(threshold) {
            assert(store@.stock.rows[j as int].id_prod_prov as int == prod_prov_id as int);
            return true;
        }
        j = j + 1;
    }
    false
}

fn product_is_low(store: &Inventory, product_id: i32, threshold: Amount) -> (r: bool)
    ensures
        r == product_low(store@, product_id as int, threshold),
{
    let mut i: usize = 0;
    while i < store.productos_proveedores.len()
        invariant
            i <= store@.productos_proveedores.rows.len(),
            forall|k: int|
                0 <= k < i ==> !(#[trigger] store@.productos_proveedores.rows[k].id_producto as int == product_id as int
                    && supply_low(store@, store@.productos_proveedores.rows[k].id_prod_prov as int, threshold)),
        decreases store@.productos_proveedores.rows.len() - i,
    {
        let pp = store.productos_proveedores.at(i);
        if pp.id_producto == product_id && supply_is_low(store, pp.id_prod_prov, threshold) {
            assert(store@.productos_proveedores.rows[i as int].id_producto as int == product_id as int);
            return true;
        }
        i = i + 1;
    }
    false
}

/// The products that have, through any of their suppliers, a stock record
/// holding less than `threshold`: each product once, in key order.
pub fn low_stock_products(store: &Inventory, threshold: Amount) -> (r: Result<Vec<Producto>, StoreError>)
    requires
        store.wf(),
    ensures
        list_gives(store@.open, low_stock(store@, threshold), r),
{
    if !store.is_open() {
        return Err(StoreError::Closed);
    }
    let ghost pred = |p: Producto| product_low(store@, p.id_producto as int, threshold);
    let mut out: Vec<Producto> = Vec::new();
    let mut i: usize = 0;
    while i < store.productos.len()
        invariant
            i <= store@.productos.rows.len(),
            pred == (|p: Producto| product_low(store@, p.id_producto as int, threshold)),
            out@ == store@.productos.rows.subrange(0, i as int).filter(pred),
        decreases store@.productos.rows.len() - i,
    {
        let ghost prefix = store@.productos.rows.subrange(0, i + 1);
        proof {
            assert(prefix.drop_last() =~= store@.productos.rows.subrange(0, i as int));
            reveal(Seq::filter);
        }
        let p = store.productos.at(i);
        let low = product_is_low(store, p.id_producto, threshold);
        assert(pred(prefix.last()) == low);
        if low {
            out.push(p.duplicate());
        }
        i = i + 1;
        assert(out@ =~= prefix.filter(pred));
    }
    assert(store@.productos.rows.subrange(0, i as int) =~= store@.productos.rows);
    Ok(out)
}

/// Every stock record reduced to what is on hand where, in key order.
pub fn stock_actual_all(store: &Inventory) -> (r: Result<Vec<StockActual>, StoreError>)
    requires
        store.wf(),
    ensures
        list_gives(store@.open, snapshot(store@), r),
{
    if !store.is_open() {
        return Err(StoreError::Closed);
    }
    let mut out: Vec<StockActual> = Vec::new();
    let mut i: usize = 0;
    while i < store.stock.len()
        invariant
            i <= store@.stock.rows.len(),
            out@ == snapshot(store@).subrange(0, i as int),
        decreases store@.stock.rows.len() - i,
    {
        let s = store.stock.at(i);
        out.push(
            StockActual {
                id_prod_prov: s.id_prod_prov,
                id_presentacion: s.id_presentacion,
                id_almacen: s.id_almacen,
                stock_actual: s.stock_actual,
            },
        );
        i = i + 1;
        assert(out@ =~= snapshot(store@).subrange(0, i as int));
    }
    assert(out@ =~= snapshot(store@));
    Ok(out)
}

/// The low-stock listing names each product once: its keys strictly
/// increase, however many stock records of a product are low, and it holds
/// exactly the products that are low.
pub proof fn lemma_low_stock_distinct(s: InventoryView, threshold: Amount)
    requires
        s.wf(),
    ensures
        forall|i: int, j: int|
            0 <= i < j < low_stock(s, threshold).len() ==> #[trigger] low_stock(s, threshold)[i].id_producto
                < #[trigger] low_stock(s, threshold)[j].id_producto,
        forall|i: int|
            0 <= i < s.productos.rows.len() ==> (low_stock(s, threshold).contains(#[trigger] s.productos.rows[i])
                <==> product_low(s, s.productos.rows[i].id_producto as int, threshold)),
{
    let pred = |p: Producto| product_low(s, p.id_producto as int, threshold);
    lemma_filter_keeps_key_order(s.productos.rows, pred);
    assert forall|i: int, j: int|
        0 <= i < j < low_stock(s, threshold).len() implies #[trigger] low_stock(s, threshold)[i].id_producto
            < #[trigger] low_stock(s, threshold)[j].id_producto by {
        assert(low_stock(s, threshold)[i].row_id() < low_stock(s, threshold)[j].row_id());
    }
    assert forall|i: int|
        0 <= i < s.productos.rows.len() implies (low_stock(s, threshold).contains(#[trigger] s.productos.rows[i])
            <==> product_low(s, s.productos.rows[i].id_producto as int, threshold)) by {
        let x = s.productos.rows[i];
        if pred(x) {
            s.productos.rows.lemma_filter_contains(pred, i);
        }
        if low_stock(s, threshold).contains(x) {
            let k = choose|k: int| 0 <= k < low_stock(s, threshold).len() && low_stock(s, threshold)[k] == x;
            s.productos.rows.lemma_filter_pred(pred, k);
        }
    }
}

} // verus!
