[package]
name = "minions"
version = "0.1.0"
edition = "2021"
publish = false

[dependencies]
async-channel = "=2.5.0"
gloo = "=0.11.0"
js-sys = "=0.3.72"
nostro2 = "=0.1.35"
serde = { version = "=1.0.229", features = ["derive"] }
serde_json = "=1.0.154"
serde-wasm-bindgen = "=0.6.5"
wasm-bindgen = "=0.2.95"
wasm-bindgen-futures = "=0.4.45"
web-sys = { version = "=0.3.72", features = ["AesKeyGenParams", "BinaryType", "Cache", "CacheStorage", "Clients", "CloseEvent", "Crypto", "CryptoKey", "Document", "DragEvent", "Element", "ErrorEvent", "Event", "EventTarget", "ExtendableEvent", "FetchEvent", "Geolocation", "Headers", "HtmlElement", "HtmlFormElement", "HtmlInputElement", "HtmlSelectElement", "HtmlTextAreaElement", "IdbDatabase", "IdbFactory", "IdbObjectStore", "IdbOpenDbRequest", "IdbRequest", "IdbTransaction", "IdbTransactionMode", "MessageEvent", "Navigator", "NodeList", "NotificationOptions", "PushEvent", "PushManager", "PushMessageData", "PushSubscription", "PushSubscriptionOptionsInit", "Request", "RequestInit", "Response", "ServiceWorkerContainer", "ServiceWorkerGlobalScope", "ServiceWorkerRegistration", "SubmitEvent", "SubtleCrypto", "WebSocket", "Window"] }
yew = { version = "=0.21.0", features = ["csr"] }
yew-router = "=0.18.0"
