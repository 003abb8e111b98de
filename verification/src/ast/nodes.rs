use vstd::prelude::*;

verus! {

/// A place in the source text.
#[derive(Debug, Clone, Copy, PartialEq, Eq, Structural)]
pub struct SourcePosition {
    /// Offset from the start of the text
    pub position: usize,
    pub line: usize,
    pub column: usize,
}

impl SourcePosition {
    /// The place at which a text begins.
    pub fn start_position() -> (at: SourcePosition)
        ensures
            at == (SourcePosition { position: 0, line: 0, column: 0 }),
    {
        SourcePosition { position: 0, line: 0, column: 0 }
    }

    /// The place that stands for "nowhere in the text".
    pub fn invalid_position() -> (at: SourcePosition)
        ensures
            at == (SourcePosition {
                position: usize::MAX,
                line: usize::MAX,
                column: usize::MAX,
            }),
    {
        SourcePosition { position: usize::MAX, line: usize::MAX, column: usize::MAX }
    }
}

/// A wrapper struct that adds source position to an AST node.
#[derive(Debug, PartialEq)]
pub struct WithMetaData<T> {
    /// The AST node
    pub node: T,
    /// The starting position of the AST node in the source code
    pub start: SourcePosition,
    /// The ending position of the AST node in the source code
    pub end: SourcePosition,
}

/// NodeByteStr represents a byte string node in the AST
#[derive(Debug, PartialEq)]
pub enum NodeByteStr {
    /// Represents a constant byte string
    /// Example: `let x = "constant";`
    Constant(WithMetaData<String>),
    /// Represents a byte string type
    /// Example: `let x: ByStr = "type";`
    Type(WithMetaData<String>),
}

impl NodeByteStr {
    /// The text of the byte string node.
    pub open spec fn text(self) -> Seq<char> {
        match self {
            NodeByteStr::Constant(s) => s.node@,
            NodeByteStr::Type(t) => t.node@,
        }
    }

    /// Converts the NodeByteStr to a string
    pub fn to_string(&self) -> (text: String)
        ensures
            text@ == self.text(),
    {
        match self {
            NodeByteStr::Constant(s) => s.node.clone(),
            NodeByteStr::Type(t) => t.node.clone(),
        }
    }
}

/// NodeTypeNameIdentifier represents a type name identifier node in the AST
#[derive(Debug, PartialEq)]
pub enum NodeTypeNameIdentifier {
    /// Represents a byte string type
    /// Example: `let x: ByStr = "type";`
    ByteStringType(WithMetaData<NodeByteStr>),
    /// Represents an event type
    /// Example: `event e;`
    EventType,
    /// Represents a type or enum-like identifier
    /// Example: `let x: CustomType = "type";`
    TypeOrEnumLikeIdentifier(WithMetaData<String>),
}

impl NodeTypeNameIdentifier {
    /// The name that the identifier spells.
    pub open spec fn text(self) -> Seq<char> {
        match self {
            NodeTypeNameIdentifier::ByteStringType(byte_str) => byte_str.node.text(),
            NodeTypeNameIdentifier::EventType => "Event"@,
            NodeTypeNameIdentifier::TypeOrEnumLikeIdentifier(custom_type) => custom_type.node@,
        }
    }

    /// Converts the NodeTypeNameIdentifier to a string
    pub fn to_string(&self) -> (text: String)
        ensures
            text@ == self.text(),
    {
        match self {
            NodeTypeNameIdentifier::ByteStringType(byte_str) => byte_str.node.to_string(),
            NodeTypeNameIdentifier::EventType => "Event".to_owned(),
            NodeTypeNameIdentifier::TypeOrEnumLikeIdentifier(custom_type) => {
                custom_type.node.clone()
            },
        }
    }
}

/// NodeImportedName represents an imported name node in the AST
#[derive(Debug, PartialEq)]
pub enum NodeImportedName {
    /// Represents a regular import
    /// Example: `import CustomType`
    RegularImport(WithMetaData<NodeTypeNameIdentifier>),
    /// Represents an aliased import
    /// Example: `import CustomType as Alias`
    AliasedImport(WithMetaData<NodeTypeNameIdentifier>, WithMetaData<NodeTypeNameIdentifier>),
}

/// NodeImportDeclarations represents a list of import declarations in the AST
#[derive(Debug, PartialEq)]
pub struct NodeImportDeclarations {
    pub import_list: Vec<WithMetaData<NodeImportedName>>,
}

/// NodeMetaIdentifier represents a meta identifier node in the AST
#[derive(Debug, PartialEq)]
pub enum NodeMetaIdentifier {
    /// Represents a meta name
    /// Example: `let x: MetaName = "type";`
    MetaName(WithMetaData<NodeTypeNameIdentifier>),
    /// Represents a name qualified by another: the two names in the order in which they
    /// are visited
    /// Example: `let x: MetaName.Namespace = "type";`
    MetaNameInNamespace(
        WithMetaData<NodeTypeNameIdentifier>,
        WithMetaData<NodeTypeNameIdentifier>,
    ),
    /// Represents a meta name in a hexspace
    /// Example: `let x: 0x123.MetaName = "type";`
    MetaNameInHexspace(WithMetaData<String>, WithMetaData<NodeTypeNameIdentifier>),
    /// Represents a byte string
    /// Example: `let x: ByStr = "type";`
    ByteString,
}

/// NodeVariableIdentifier represents a variable identifier node in the AST
#[derive(Debug, PartialEq)]
pub enum NodeVariableIdentifier {
    /// Represents a variable name
    /// Example: `let x = "variable";`
    VariableName(WithMetaData<String>),
    /// Represents a special identifier
    /// Example: `let _ = "special";`
    SpecialIdentifier(WithMetaData<String>),
    /// Represents a variable in a namespace
    /// Example: `let x: Namespace.Variable = "variable";`
    VariableInNamespace(WithMetaData<NodeTypeNameIdentifier>, WithMetaData<String>),
}

/// NodeBuiltinArguments represents a list of arguments for a built-in function in the AST
#[derive(Debug, PartialEq)]
pub struct NodeBuiltinArguments {
    pub arguments: Vec<WithMetaData<NodeVariableIdentifier>>,
}

/// NodeTypeMapKey represents a type map key node in the AST
#[derive(Debug, PartialEq)]
pub enum NodeTypeMapKey {
    /// Represents a generic map key
    /// Example: `let x: Map (KeyType, ValueType) = Emp;`
    GenericMapKey(WithMetaData<NodeMetaIdentifier>),
    /// Represents an enclosed generic id
    /// Example: `let x: Map ((KeyType), ValueType) = Emp;`
    EnclosedGenericId(WithMetaData<NodeMetaIdentifier>),
    /// Represents an enclosed address map key type
    /// Example: `let x: Map ((ByStr20), ValueType) = Emp;`
    EnclosedAddressMapKeyType(WithMetaData<NodeAddressType>),
    /// Represents an address map key type
    /// Example: `let x: Map (ByStr20, ValueType) = Emp;`
    AddressMapKeyType(WithMetaData<NodeAddressType>),
}

/// NodeTypeMapValue represents a type map value node in the AST
#[derive(Debug, PartialEq)]
pub enum NodeTypeMapValue {
    /// Represents a map value type or enum-like identifier
    /// Example: `let x: Map (KeyType, ValueType) = Emp;`
    MapValueTypeOrEnumLikeIdentifier(WithMetaData<NodeMetaIdentifier>),
    /// Represents a map key value type
    /// Example: `let x: Map (KeyType, (KeyType, ValueType)) = Emp;`
    MapKeyValue(Box<WithMetaData<NodeTypeMapEntry>>),
    /// Represents a map value parenthesized type
    /// Example: `let x: Map (KeyType, (ValueType)) = Emp;`
    MapValueParenthesizedType(Box<WithMetaData<NodeTypeMapValueAllowingTypeArguments>>),
    /// Represents a map value address type
    /// Example: `let x: Map (KeyType, ByStr20) = Emp;`
    MapValueAddressType(Box<WithMetaData<NodeAddressType>>),
}

/// NodeTypeArgument represents a type argument node in the AST
#[derive(Debug, PartialEq)]
pub enum NodeTypeArgument {
    /// Represents an enclosed type argument
    /// Example: `let x: CustomType (ArgType) = "type";`
    EnclosedTypeArgument(Box<WithMetaData<NodeScillaType>>),
    /// Represents a generic type argument
    /// Example: `let x: CustomType ArgType = "type";`
    GenericTypeArgument(WithMetaData<NodeMetaIdentifier>),
    /// Represents a template type argument
    /// Example: `let x: CustomType "ArgType" = "type";`
    TemplateTypeArgument(WithMetaData<String>),
    /// Represents an address type argument
    /// Example: `let x: CustomType ByStr20 = "type";`
    AddressTypeArgument(WithMetaData<NodeAddressType>),
    /// Represents a map type argument
    /// Example: `let x: CustomType (KeyType, ValueType) = "type";`
    MapTypeArgument(WithMetaData<NodeTypeMapKey>, WithMetaData<NodeTypeMapValue>),
}

/// NodeScillaType represents a Scilla type node in the AST
#[derive(Debug, PartialEq)]
pub enum NodeScillaType {
    /// Represents a generic type with arguments
    /// Example: `let x: CustomType ArgType = "type";`
    GenericTypeWithArgs(WithMetaData<NodeMetaIdentifier>, Vec<WithMetaData<NodeTypeArgument>>),
    /// Represents a map type
    /// Example: `let x: Map (KeyType, ValueType) = Emp;`
    MapType(WithMetaData<NodeTypeMapKey>, WithMetaData<NodeTypeMapValue>),
    /// Represents a function type
    /// Example: `let x: Fun (ArgType) ReturnType = fun (arg : ArgType) => arg;`
    FunctionType(Box<WithMetaData<NodeScillaType>>, Box<WithMetaData<NodeScillaType>>),
    /// Represents an enclosed type
    /// Example: `let x: (CustomType) = "type";`
    EnclosedType(Box<WithMetaData<NodeScillaType>>),
    /// Represents a Scilla address type
    /// Example: `let x: ByStr20 = "0x123";`
    ScillaAddresseType(Box<WithMetaData<NodeAddressType>>),
    /// Represents a poly function type
    /// Example: `let x: forall 'A. ('A -> 'A) = fun (arg : 'A) => arg;`
    PolyFunctionType(WithMetaData<String>, Box<WithMetaData<NodeScillaType>>),
    /// Represents a type var type
    /// Example: `let x: 'A = "type";`
    TypeVarType(WithMetaData<String>),
}

/// NodeTypeMapEntry represents a type map entry node in the AST
#[derive(Debug, PartialEq)]
pub struct NodeTypeMapEntry {
    pub key: WithMetaData<NodeTypeMapKey>,
    pub value: WithMetaData<NodeTypeMapValue>,
}

/// NodeAddressTypeField represents an address type field node in the AST
#[derive(Debug, PartialEq)]
pub struct NodeAddressTypeField {
    pub identifier: WithMetaData<NodeVariableIdentifier>,
    pub typename: WithMetaData<NodeScillaType>,
}

/// NodeAddressType represents an address type node in the AST
#[derive(Debug, PartialEq)]
pub struct NodeAddressType {
    pub identifier: WithMetaData<NodeTypeNameIdentifier>,
    pub typename: WithMetaData<String>,
    pub address_fields: Vec<WithMetaData<NodeAddressTypeField>>,
}

/// NodeFullExpression represents a full expression node in the AST
#[derive(Debug, PartialEq)]
#[allow(inconsistent_fields)]
pub enum NodeFullExpression {
    /// Represents a local variable declaration
    /// Example: `let x = "variable" in ...`
    LocalVariableDeclaration {
        identifier_name: WithMetaData<String>,
        expression: Box<WithMetaData<NodeFullExpression>>,
        type_annotation: Option<WithMetaData<NodeTypeAnnotation>>,
        containing_expression: Box<WithMetaData<NodeFullExpression>>,
    },
    /// Represents a function declaration
    /// Example: `fun (arg : ArgType) => arg`
    FunctionDeclaration {
        identier_value: WithMetaData<String>,
        type_annotation: WithMetaData<NodeTypeAnnotation>,
        expression: Box<WithMetaData<NodeFullExpression>>,
    },
    /// Represents a function call
    /// Example: `f arg`
    FunctionCall {
        function_name: WithMetaData<NodeVariableIdentifier>,
        argument_list: Vec<WithMetaData<NodeVariableIdentifier>>,
    },
    /// Represents an atomic expression
    /// Example: `let x = "atomic"`
    ExpressionAtomic(Box<WithMetaData<NodeAtomicExpression>>),
    /// Represents a built-in expression
    /// Example: `let x = builtin f arg`
    ExpressionBuiltin {
        b: WithMetaData<String>,
        targs: Option<WithMetaData<NodeContractTypeArguments>>,
        xs: WithMetaData<NodeBuiltinArguments>,
    },
    /// Represents a message
    /// Example: `msg = { _tag : "tag", _recipient : "0x123", _amount : "0", param : "value" }`
    Message(Vec<WithMetaData<NodeMessageEntry>>),
    /// Represents a match expression
    /// Example: `match x with | Nil => "nil" | Cons a b => "cons" end`
    Match {
        match_expression: WithMetaData<NodeVariableIdentifier>,
        clauses: Vec<WithMetaData<NodePatternMatchExpressionClause>>,
    },
    /// Represents a constructor call
    /// Example: `let x = CustomType arg`
    ConstructorCall {
        identifier_name: WithMetaData<NodeMetaIdentifier>,
        contract_type_arguments: Option<WithMetaData<NodeContractTypeArguments>>,
        argument_list: Vec<WithMetaData<NodeVariableIdentifier>>,
    },
    /// Represents a template function
    /// Example: `let x = tfun 'A => fun (arg : 'A) => arg`
    TemplateFunction {
        identifier_name: WithMetaData<String>,
        expression: Box<WithMetaData<NodeFullExpression>>,
    },
    /// Represents a type application
    /// Example: `let x = @CustomType arg`
    TApp {
        identifier_name: WithMetaData<NodeVariableIdentifier>,
        type_arguments: Vec<WithMetaData<NodeTypeArgument>>,
    },
}

/// NodeMessageEntry represents a message entry node in the AST
#[derive(Debug, PartialEq)]
pub enum NodeMessageEntry {
    /// Represents a message literal
    /// Example: `msg = { _amount : Uint128 0 }`
    MessageLiteral(WithMetaData<NodeVariableIdentifier>, WithMetaData<NodeValueLiteral>),
    /// Represents a message variable
    /// Example: `msg = { _amount : amount }`
    MessageVariable(WithMetaData<NodeVariableIdentifier>, WithMetaData<NodeVariableIdentifier>),
}

/// NodePatternMatchExpressionClause represents a pattern match expression clause node in the AST
#[derive(Debug, PartialEq)]
pub struct NodePatternMatchExpressionClause {
    pub pattern: WithMetaData<NodePattern>,
    pub expression: WithMetaData<NodeFullExpression>,
}

/// NodeAtomicExpression represents an atomic expression node in the AST
#[derive(Debug, PartialEq)]
pub enum NodeAtomicExpression {
    /// Represents an atomic scilla identifier
    /// Example: `let x = variable`
    AtomicSid(WithMetaData<NodeVariableIdentifier>),
    /// Represents an atomic literal
    /// Example: `let x = "literal"`
    AtomicLit(WithMetaData<NodeValueLiteral>),
}

/// NodeContractTypeArguments represents a list of contract type arguments in the AST
#[derive(Debug, PartialEq)]
pub struct NodeContractTypeArguments {
    pub type_arguments: Vec<WithMetaData<NodeTypeArgument>>,
}

/// NodeValueLiteral represents a value literal node in the AST
#[derive(Debug, PartialEq)]
pub enum NodeValueLiteral {
    /// Represents a literal integer
    /// Example: `let x = Uint128 10`
    LiteralInt(WithMetaData<NodeTypeNameIdentifier>, WithMetaData<String>),
    /// Represents a literal hexadecimal
    /// Example: `let x = 0x123`
    LiteralHex(WithMetaData<String>),
    /// Represents a literal string
    /// Example: `let x = "string"`
    LiteralString(WithMetaData<String>),
    /// Represents a literal empty map
    /// Example: `let x: Map (KeyType, ValueType) = Emp`
    LiteralEmptyMap(WithMetaData<NodeTypeMapKey>, WithMetaData<NodeTypeMapValue>),
}

/// NodeMapAccess represents a map access node in the AST
#[derive(Debug, PartialEq)]
pub struct NodeMapAccess {
    pub identifier_name: WithMetaData<NodeVariableIdentifier>,
}

/// NodePattern represents a pattern node in the AST
#[derive(Debug, PartialEq)]
pub enum NodePattern {
    /// Represents a wildcard pattern
    /// Example: `match x with | _ => "wildcard" end`
    Wildcard,
    /// Represents a binder pattern
    /// Example: `match x with | a => "binder" end`
    Binder(WithMetaData<String>),
    /// Represents a constructor pattern
    /// Example: `match x with | Cons a b => "constructor" end`
    Constructor(WithMetaData<NodeMetaIdentifier>, Vec<WithMetaData<NodeArgumentPattern>>),
}

/// NodeArgumentPattern represents an argument pattern node in the AST
#[derive(Debug, PartialEq)]
pub enum NodeArgumentPattern {
    /// Represents a wildcard argument
    /// Example: `match x with | Cons _ _ => "wildcard" end`
    WildcardArgument,
    /// Represents a binder argument
    /// Example: `match x with | Cons a _ => "binder" end`
    BinderArgument(WithMetaData<String>),
    /// Represents a constructor argument
    /// Example: `match x with | Cons (Cons a b) _ => "constructor" end`
    ConstructorArgument(WithMetaData<NodeMetaIdentifier>),
    /// Represents a pattern argument
    /// Example: `match x with | Cons (Cons a _) _ => "pattern" end`
    PatternArgument(Box<WithMetaData<NodePattern>>),
}

/// NodePatternMatchClause represents a pattern match clause node in the AST
#[derive(Debug, PartialEq)]
pub struct NodePatternMatchClause {
    pub pattern_expression: Box<WithMetaData<NodePattern>>,
    pub statement_block: Option<WithMetaData<NodeStatementBlock>>,
}

/// NodeBlockchainFetchArguments represents a list of blockchain fetch arguments in the AST
#[derive(Debug, PartialEq)]
pub struct NodeBlockchainFetchArguments {
    pub arguments: Vec<WithMetaData<NodeVariableIdentifier>>,
}

/// NodeStatement represents a statement node in the AST
#[derive(Debug, PartialEq)]
#[allow(inconsistent_fields)]
pub enum NodeStatement {
    /// Represents a load statement
    /// Example: `x <- f`
    Load {
        left_hand_side: WithMetaData<String>,
        right_hand_side: WithMetaData<NodeVariableIdentifier>,
    },
    /// Represents a remote fetch statement
    /// Example: `x <- &contract.field`
    RemoteFetch(Box<NodeRemoteFetchStatement>),
    /// Represents a store statement
    /// Example: `f := x`
    Store {
        left_hand_side: WithMetaData<String>,
        right_hand_side: WithMetaData<NodeVariableIdentifier>,
    },
    /// Represents a bind statement
    /// Example: `x = Uint128 10`
    Bind {
        left_hand_side: WithMetaData<String>,
        right_hand_side: Box<WithMetaData<NodeFullExpression>>,
    },
    /// Represents a read from blockchain statement
    /// Example: `x <- & BLOCKNUMBER`
    ReadFromBC {
        left_hand_side: WithMetaData<String>,
        typename: WithMetaData<NodeTypeNameIdentifier>,
        arguments: Option<NodeBlockchainFetchArguments>,
    },
    /// Represents a map get statement
    /// Example: `x <- m[k]`
    MapGet {
        left_hand_side: WithMetaData<String>,
        keys: Vec<WithMetaData<NodeMapAccess>>,
        right_hand_side: WithMetaData<String>,
    },
    /// Represents a map get exists statement
    /// Example: `x <- exists m[k]`
    MapGetExists {
        left_hand_side: WithMetaData<String>,
        keys: Vec<WithMetaData<NodeMapAccess>>,
        right_hand_side: WithMetaData<String>,
    },
    /// Represents a map update statement
    /// Example: `m[k] := v`
    MapUpdate {
        left_hand_side: WithMetaData<String>,
        keys: Vec<WithMetaData<NodeMapAccess>>,
        right_hand_side: WithMetaData<NodeVariableIdentifier>,
    },
    /// Represents a map update delete statement
    /// Example: `delete m[k]`
    MapUpdateDelete {
        left_hand_side: WithMetaData<String>,
        keys: Vec<WithMetaData<NodeMapAccess>>,
    },
    /// Represents an accept statement
    /// Example: `accept`
    Accept,
    /// Represents a send statement
    /// Example: `send msgs`
    Send { identifier_name: WithMetaData<NodeVariableIdentifier> },
    /// Represents a create event statement
    /// Example: `event e`
    CreateEvnt { identifier_name: WithMetaData<NodeVariableIdentifier> },
    /// Represents a throw statement
    /// Example: `throw e`
    Throw { error_variable: Option<WithMetaData<NodeVariableIdentifier>> },
    /// Represents a match statement
    /// Example: `match x with | Nil => accept | Cons a b => accept end`
    MatchStmt {
        variable: WithMetaData<NodeVariableIdentifier>,
        clauses: Vec<WithMetaData<NodePatternMatchClause>>,
    },
    /// Represents a call procedure statement
    /// Example: `Proc arg`
    CallProc {
        component_id: WithMetaData<NodeComponentId>,
        arguments: Vec<WithMetaData<NodeVariableIdentifier>>,
    },
    /// Represents an iterate statement
    /// Example: `forall list Proc`
    Iterate {
        identifier_name: WithMetaData<NodeVariableIdentifier>,
        component_id: WithMetaData<NodeComponentId>,
    },
}

/// NodeRemoteFetchStatement represents a remote fetch statement node in the AST
#[derive(Debug, PartialEq)]
pub enum NodeRemoteFetchStatement {
    /// Represents a read state mutable statement
    /// Example: `x <- &contract.field`
    ReadStateMutable(
        WithMetaData<String>,
        WithMetaData<String>,
        WithMetaData<NodeVariableIdentifier>,
    ),
    /// Represents a read state mutable special id statement
    /// Example: `x <- &contract._balance`
    ReadStateMutableSpecialId(WithMetaData<String>, WithMetaData<String>, WithMetaData<String>),
    /// Represents a read state mutable map access statement
    /// Example: `x <- &contract.field[k]`
    ReadStateMutableMapAccess(
        WithMetaData<String>,
        WithMetaData<String>,
        WithMetaData<String>,
        Vec<WithMetaData<NodeMapAccess>>,
    ),
    /// Represents a read state mutable map access exists statement
    /// Example: `x <- & exists contract.field[k]`
    ReadStateMutableMapAccessExists(
        WithMetaData<String>,
        WithMetaData<String>,
        WithMetaData<String>,
        Vec<WithMetaData<NodeMapAccess>>,
    ),
    /// Represents a read state mutable cast address statement
    /// Example: `x <- &addr as ByStr20 with end`
    ReadStateMutableCastAddress(
        WithMetaData<String>,
        WithMetaData<NodeVariableIdentifier>,
        WithMetaData<NodeAddressType>,
    ),
}

/// NodeComponentId represents a component id node in the AST
#[derive(Debug, PartialEq)]
pub enum NodeComponentId {
    /// Represents a component id with a type like name
    /// Example: `transition Transfer ...`
    WithTypeLikeName(WithMetaData<NodeTypeNameIdentifier>),
    /// Represents a component id with a regular id
    /// Example: `transition transfer ...`
    WithRegularId(WithMetaData<String>),
}

impl NodeComponentId {
    /// The name that the component id spells.
    pub open spec fn text(self) -> Seq<char> {
        match self {
            NodeComponentId::WithTypeLikeName(name) => name.node.text(),
            NodeComponentId::WithRegularId(name) => name.node@,
        }
    }

    /// Converts the NodeComponentId to a string
    pub fn to_string(&self) -> (text: String)
        ensures
            text@ == self.text(),
    {
        match self {
            NodeComponentId::WithTypeLikeName(name) => name.node.to_string(),
            NodeComponentId::WithRegularId(name) => name.node.clone(),
        }
    }
}

/// NodeComponentParameters represents a list of component parameters in the AST
#[derive(Debug, PartialEq)]
pub struct NodeComponentParameters {
    pub parameters: Vec<WithMetaData<NodeParameterPair>>,
}

/// NodeParameterPair represents a parameter pair node in the AST
#[derive(Debug, PartialEq)]
pub struct NodeParameterPair {
    pub identifier_with_type: WithMetaData<NodeTypedIdentifier>,
}

/// NodeComponentBody represents a component body node in the AST
#[derive(Debug, PartialEq)]
pub struct NodeComponentBody {
    pub statement_block: Option<WithMetaData<NodeStatementBlock>>,
}

/// NodeStatementBlock represents a block of statements in the AST
#[derive(Debug, PartialEq)]
pub struct NodeStatementBlock {
    pub statements: Vec<NodeStatement>,
}

/// NodeTypedIdentifier represents a typed identifier node in the AST
#[derive(Debug, PartialEq)]
pub struct NodeTypedIdentifier {
    pub identifier_name: WithMetaData<String>,
    pub annotation: WithMetaData<NodeTypeAnnotation>,
}

/// NodeTypeAnnotation represents a type annotation node in the AST
#[derive(Debug, PartialEq)]
pub struct NodeTypeAnnotation {
    pub typename: WithMetaData<NodeScillaType>,
}

/// NodeProgram represents a program node in the AST
#[derive(Debug, PartialEq)]
pub struct NodeProgram {
    pub version: WithMetaData<String>,
    pub import_declarations: Option<WithMetaData<NodeImportDeclarations>>,
    pub library_definition: Option<WithMetaData<NodeLibraryDefinition>>,
    pub contract_definition: WithMetaData<NodeContractDefinition>,
}

/// NodeLibraryDefinition represents a library definition node in the AST
#[derive(Debug, PartialEq)]
pub struct NodeLibraryDefinition {
    pub name: WithMetaData<NodeTypeNameIdentifier>,
    pub definitions: Vec<WithMetaData<NodeLibrarySingleDefinition>>,
}

/// NodeLibrarySingleDefinition represents a single library definition node in the AST
#[derive(Debug, PartialEq)]
pub enum NodeLibrarySingleDefinition {
    /// Represents a let definition
    /// Example: `let x = Uint128 10`
    LetDefinition {
        variable_name: WithMetaData<String>,
        type_annotation: Option<WithMetaData<NodeTypeAnnotation>>,
        expression: WithMetaData<NodeFullExpression>,
    },
    /// Represents a type definition
    /// Example: `type CustomType = | A | B of Uint128`
    TypeDefinition(
        WithMetaData<NodeTypeNameIdentifier>,
        Option<Vec<WithMetaData<NodeTypeAlternativeClause>>>,
    ),
}

/// NodeContractDefinition represents a contract definition node in the AST
#[derive(Debug, PartialEq)]
pub struct NodeContractDefinition {
    pub contract_name: WithMetaData<NodeTypeNameIdentifier>,
    pub parameters: WithMetaData<NodeComponentParameters>,
    pub constraint: Option<WithMetaData<NodeWithConstraint>>,
    pub fields: Vec<WithMetaData<NodeContractField>>,
    pub components: Vec<WithMetaData<NodeComponentDefinition>>,
}

/// NodeContractField represents a contract field node in the AST
#[derive(Debug, PartialEq)]
pub struct NodeContractField {
    pub typed_identifier: WithMetaData<NodeTypedIdentifier>,
    pub right_hand_side: WithMetaData<NodeFullExpression>,
}

/// NodeWithConstraint represents a with constraint node in the AST
#[derive(Debug, PartialEq)]
pub struct NodeWithConstraint {
    pub expression: Box<WithMetaData<NodeFullExpression>>,
}

/// NodeComponentDefinition represents a component definition node in the AST
#[derive(Debug, PartialEq)]
pub enum NodeComponentDefinition {
    /// Represents a transition component
    /// Example: `transition Transfer (to : ByStr20) ... end`
    TransitionComponent(Box<WithMetaData<NodeTransitionDefinition>>),
    /// Represents a procedure component
    /// Example: `procedure Check (sender : ByStr20) ... end`
    ProcedureComponent(Box<WithMetaData<NodeProcedureDefinition>>),
}

/// NodeProcedureDefinition represents a procedure definition node in the AST
#[derive(Debug, PartialEq)]
pub struct NodeProcedureDefinition {
    pub name: WithMetaData<NodeComponentId>,
    pub parameters: WithMetaData<NodeComponentParameters>,
    pub body: WithMetaData<NodeComponentBody>,
}

/// NodeTransitionDefinition represents a transition definition node in the AST
#[derive(Debug, PartialEq)]
pub struct NodeTransitionDefinition {
    pub name: WithMetaData<NodeComponentId>,
    pub parameters: WithMetaData<NodeComponentParameters>,
    pub body: WithMetaData<NodeComponentBody>,
}

/// NodeTypeAlternativeClause represents an alternative clause node in the AST
#[derive(Debug, PartialEq)]
pub enum NodeTypeAlternativeClause {
    /// Represents a clause type
    /// Example: `| A`
    ClauseType(WithMetaData<NodeTypeNameIdentifier>),
    /// Represents a clause type with arguments
    /// Example: `| B of Uint128`
    ClauseTypeWithArgs(WithMetaData<NodeTypeNameIdentifier>, Vec<WithMetaData<NodeTypeArgument>>),
}

/// NodeTypeMapValueArguments represents map value arguments node in the AST
#[derive(Debug, PartialEq)]
pub enum NodeTypeMapValueArguments {
    /// Represents an enclosed type map value
    /// Example: `Map KeyType (List (ValueType))`
    EnclosedTypeMapValue(Box<WithMetaData<NodeTypeMapValueAllowingTypeArguments>>),
    /// Represents a generic map value argument
    /// Example: `Map KeyType (List ValueType)`
    GenericMapValueArgument(WithMetaData<NodeMetaIdentifier>),
    /// Represents a map key value type
    /// Example: `Map KeyType (List Map KeyType ValueType)`
    MapKeyValueType(WithMetaData<NodeTypeMapKey>, WithMetaData<NodeTypeMapValue>),
}

/// NodeTypeMapValueAllowingTypeArguments represents a map value that may take type arguments
#[derive(Debug, PartialEq)]
pub enum NodeTypeMapValueAllowingTypeArguments {
    /// Represents a type map value with no arguments
    /// Example: `Map KeyType (ValueType)`
    TypeMapValueNoArgs(WithMetaData<NodeTypeMapValue>),
    /// Represents a type map value with arguments
    /// Example: `Map KeyType (Pair ValueType ValueType)`
    TypeMapValueWithArgs(
        WithMetaData<NodeMetaIdentifier>,
        Vec<WithMetaData<NodeTypeMapValueArguments>>,
    ),
}

} // verus!
