use async_graphql::dynamic::{Field, FieldFuture, Object, Schema, TypeRef};
use async_graphql::{Request, Value};
use available_range::available_range::{AvailableRange, AvailableRangeKey};
use available_range::error::RpcError;
use available_range::watermarks::Watermarks;
use std::future::Future;
use std::sync::Arc;
use std::task::{Context, Poll, Wake, Waker};

struct Idle;

impl Wake for Idle {
    fn wake(self: Arc<Self>) {}
}

fn finish<F: Future>(future: F) -> F::Output {
    let waker = Waker::from(Arc::new(Idle));
    let mut future = Box::pin(future);
    loop {
        if let Poll::Ready(output) = future.as_mut().poll(&mut Context::from_waker(&waker)) {
            return output;
        }
    }
}

fn watermarks(checkpoint: u64) -> Arc<Watermarks> {
    let mut w = Watermarks::new();
    w.set_lo_watermark("consistent".to_string(), checkpoint);
    Arc::new(w)
}

/// What a query of the only field answers: how a range came out that was asked for in its context.
fn answer(shared: Option<Arc<Watermarks>>, of_request: Option<Arc<Watermarks>>, field: &str) -> String {
    let field = field.to_string();
    let range = Field::new("range", TypeRef::named_nn(TypeRef::STRING), move |ctx| {
        let key = AvailableRangeKey {
            type_: "Address".to_string(),
            field: Some(field.clone()),
            filters: None,
        };
        let text = match AvailableRange::new(ctx.ctx, &7u8, key) {
            Ok(range) => format!("from {} in {}", range.first, range.scope),
            Err(RpcError::NoWatermark { pipeline }) => format!("no {pipeline}"),
            Err(RpcError::GraphQl(e)) => format!("refused: {}", e.message.ends_with("does not exist.")),
        };
        FieldFuture::from_value(Some(Value::from(text)))
    });
    let mut schema = Schema::build("Query", None, None).register(Object::new("Query").field(range));
    if let Some(w) = shared {
        schema = schema.data(w);
    }
    let mut request = Request::new("{ range }");
    if let Some(w) = of_request {
        request = request.data(w);
    }
    let schema = schema.finish().unwrap();
    let response = finish(schema.execute(request));
    assert!(response.errors.is_empty());
    match response.data {
        Value::Object(map) => match &map["range"] {
            Value::String(s) => s.clone(),
            other => panic!("{other:?}"),
        },
        other => panic!("{other:?}"),
    }
}

#[test]
fn watermarks_come_from_the_context() {
    assert_eq!(answer(Some(watermarks(31)), None, "balance"), "from 31 in 7");
    assert_eq!(answer(None, Some(watermarks(32)), "balance"), "from 32 in 7");
    assert_eq!(
        answer(Some(watermarks(31)), Some(watermarks(32)), "balance"),
        "from 32 in 7"
    );
}

#[test]
fn pipeline_without_watermark_in_the_context_is_named() {
    assert_eq!(answer(Some(watermarks(31)), None, "asObject"), "no obj_versions");
}

#[test]
fn context_without_watermarks_is_refused() {
    assert_eq!(answer(None, None, "balance"), "refused: true");
    assert_eq!(answer(None, None, "digests"), "refused: true");
}
