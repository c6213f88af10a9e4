//! The GraphQL documents that are sent for audiobooks.

use vstd::prelude::*;

verus! {

/// The name of the operation that lists the chapters of books.
pub const ZVUK_GQL_GET_BOOK_CHAPTERS_OPERATION: &'static str = "getBookChapters";

/// The document that lists the chapters of books.
pub const ZVUK_GQL_GET_BOOK_CHAPTERS_QUERY: &'static str = "
query getBookChapters($ids: [ID!]!) {
  getBooks(ids: $ids) {
    title
    mark
    explicit
    chapters {
      ...PlayerChapterData
    }
  }
}

fragment PlayerChapterData on Chapter {
  id
  title
  availability
  duration
  childParam
  image {
    src
  }
  book {
    id
    title
    mark
    explicit
  }
  bookAuthors {
    id
    rname
    image {
      src
    }
  }
  position
  __typename
}
";

/// The name of the operation that gives the streams of media items.
pub const ZVUK_GQL_GET_STREAM_OPERATION: &'static str = "getStream";

/// The document that gives the streams of media items.
pub const ZVUK_GQL_GET_STREAM: &'static str = "
query getStream($ids: [ID!]!, $quality: String, $encodeType: String, $includeFlacDrm: Boolean!) {
  mediaContents(ids: $ids, quality: $quality, encodeType: $encodeType) {
    ... on Track {
      __typename
      stream {
        expire
        high
        mid
        flacdrm @include(if: $includeFlacDrm)
      }
    }
    ... on Episode {
      __typename
      stream {
        expire
        mid
      }
    }
    ... on Chapter {
      __typename
      stream {
        expire
        mid
      }
    }
  }
}
";

} // verus!
