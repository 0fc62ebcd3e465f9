use sqlx::sqlite::SqlitePoolOptions;
use sqlx::{Pool, Sqlite};
use ttl_cache::entity::{CacheEntry, SaveCacheEntryRequest};
use ttl_cache::service::{
    fetch_response, fetch_statement, upsert_response, upsert_statement_at, ServiceError, StoreFailure,
};
use ttl_cache::store::{entry_from_row, Statement, SCHEMA_SQL};
use ttl_cache::sweeper::{SweepAction, SweepEvent, Sweeper};

fn block_on<F: std::future::Future>(f: F) -> F::Output {
    tokio::runtime::Builder::new_current_thread().enable_all().build().unwrap().block_on(f)
}

async fn open() -> Pool<Sqlite> {
    let pool = SqlitePoolOptions::new().max_connections(1).connect("sqlite::memory:").await.unwrap();
    sqlx::query(SCHEMA_SQL).execute(&pool).await.unwrap();
    pool
}

async fn execute(pool: &Pool<Sqlite>, s: &Statement) -> Result<u64, StoreFailure> {
    let mut q = sqlx::query(s.sql());
    for p in s.params() {
        q = q.bind(p);
    }
    q.execute(pool).await.map(|r| r.rows_affected()).map_err(|_| StoreFailure)
}

async fn fetch(pool: &Pool<Sqlite>, key: &str) -> Result<CacheEntry, ServiceError> {
    let s = fetch_statement(key)?;
    let mut q = sqlx::query_as::<_, (String, String, String)>(s.sql());
    for p in s.params() {
        q = q.bind(p);
    }
    let row = q.fetch_optional(pool).await.map(|r| r.map(entry_from_row)).map_err(|_| StoreFailure);
    fetch_response(row)
}

async fn upsert(pool: &Pool<Sqlite>, key: &str, value: &str, now: i64) -> Result<(), ServiceError> {
    let s = upsert_statement_at(SaveCacheEntryRequest::new(key.to_string(), value.to_string()), now)?;
    upsert_response(execute(pool, &s).await)
}

async fn tick(pool: &Pool<Sqlite>, sweeper: &mut Sweeper, now: i64) -> u64 {
    match sweeper.step(SweepEvent::Tick { now }) {
        SweepAction::Delete(s) => execute(pool, &s).await.unwrap(),
        _ => panic!("expected a delete"),
    }
}

async fn count(pool: &Pool<Sqlite>, key: &str) -> i64 {
    let (n,): (i64,) = sqlx::query_as("SELECT COUNT(*) FROM cache WHERE key = ?")
        .bind(key)
        .fetch_one(pool)
        .await
        .unwrap();
    n
}

const T: i64 = 1_700_000_000;

#[test]
fn never_written_is_not_found() {
    block_on(async {
        let pool = open().await;
        assert_eq!(fetch(&pool, "missing").await.err(), Some(ServiceError::NotFound));
        upsert(&pool, "a", "v1", T).await.unwrap();
        assert_eq!(fetch(&pool, "b").await.err(), Some(ServiceError::NotFound));
    })
}

#[test]
fn upsert_then_fetch() {
    block_on(async {
        let pool = open().await;
        upsert(&pool, "a", "v1", T).await.unwrap();
        let e = fetch(&pool, "a").await.unwrap();
        assert_eq!(e.key, "a");
        assert_eq!(e.value, "v1");
        assert_eq!(e.created_at, "2023-11-14 22:13:20");
    })
}

#[test]
fn second_upsert_replaces_value_and_time() {
    block_on(async {
        let pool = open().await;
        upsert(&pool, "a", "v1", T).await.unwrap();
        upsert(&pool, "a", "v2", T + 60).await.unwrap();
        let e = fetch(&pool, "a").await.unwrap();
        assert_eq!(e.value, "v2");
        assert_eq!(e.created_at, "2023-11-14 22:14:20");
        assert_eq!(count(&pool, "a").await, 1);
    })
}

#[test]
fn expired_entry_is_swept() {
    block_on(async {
        let pool = open().await;
        let mut sweeper = Sweeper::new(1, 1);
        upsert(&pool, "x", "y", T).await.unwrap();
        assert_eq!(tick(&pool, &mut sweeper, T + 1).await, 0);
        assert_eq!(fetch(&pool, "x").await.unwrap().value, "y");
        assert_eq!(tick(&pool, &mut sweeper, T + 2).await, 1);
        assert_eq!(fetch(&pool, "x").await.err(), Some(ServiceError::NotFound));
    })
}

#[test]
fn write_after_tick_survives() {
    block_on(async {
        let pool = open().await;
        let mut sweeper = Sweeper::new(1, 1);
        upsert(&pool, "old", "1", T - 10).await.unwrap();
        assert_eq!(tick(&pool, &mut sweeper, T).await, 1);
        upsert(&pool, "z", "1", T).await.unwrap();
        assert_eq!(fetch(&pool, "z").await.unwrap().value, "1");
        assert_eq!(fetch(&pool, "old").await.err(), Some(ServiceError::NotFound));
    })
}

#[test]
fn entry_at_cutoff_is_kept() {
    block_on(async {
        let pool = open().await;
        let mut sweeper = Sweeper::new(5, 5);
        upsert(&pool, "edge", "e", T - 5).await.unwrap();
        assert_eq!(tick(&pool, &mut sweeper, T).await, 0);
        assert_eq!(fetch(&pool, "edge").await.unwrap().value, "e");
    })
}

#[test]
fn values_round_trip_unmodified() {
    block_on(async {
        let pool = open().await;
        for (k, v) in [("e", ""), ("q", "it's \"quoted\""), ("u", "ünïcödé ✓"), ("s", "  spaces  ")] {
            upsert(&pool, k, v, T).await.unwrap();
            assert_eq!(fetch(&pool, k).await.unwrap().value, v);
        }
    })
}

#[test]
fn test_create_cache_entry() {
    block_on(async {
        let pool = open().await;
        assert_eq!(upsert(&pool, "test_key", "new_value", T).await, Ok(()));
        assert_eq!(fetch(&pool, "test_key").await.unwrap().value, "new_value");
        let missing = fetch(&pool, "unknown_key").await.err().unwrap();
        assert_eq!(missing.status_code(), 404);
    })
}
