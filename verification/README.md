# cadastro_api

Cadastro de usuarios, clientes, produtos e pedidos com trilha de auditoria
reidratavel, verificado com Verus.

- `src/domain`: value objects (`Nome`, `Email`, `Cpf`, `Dinheiro`,
  `Quantidade`, senhas), agregados (`User`, `Cliente`, `Produto`, `Pedido`) e
  as portas de persistencia.
- `src/application`: casos de uso por agregado, DTOs, erros, a porta de
  tokens e o vocabulario da auditoria (cada escrita gera um registro com o
  estado completo do agregado).
- `src/infra`: o cache em memoria generico, o decorador de auditoria (com a
  trilha de registros pendentes), o replay do historico, com as leis que
  garantem que reaplicar a trilha reconstroi o cache, e o hasher bcrypt.
- `src/presentation`: status HTTP de cada erro, leitura de ids de rota e as
  checagens de autenticacao.
- `app/`: o servidor Axum, o arquivo de auditoria em JSON lines e JWT.

Os testes ficam em `tests/`.
